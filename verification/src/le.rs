//! Little-endian integers as bytes: the encoding every field of the strategy
//! wire format and every storage slot uses.

use vstd::prelude::*;

verus! {

/// Byte `i` of `v`, counting from the least significant.
pub open spec fn byte_of(v: int, i: int) -> u8 {
    if i == 0 {
        (v % 0x100) as u8
    } else if i == 1 {
        (v / 0x100 % 0x100) as u8
    } else if i == 2 {
        (v / 0x1_0000 % 0x100) as u8
    } else if i == 3 {
        (v / 0x100_0000 % 0x100) as u8
    } else if i == 4 {
        (v / 0x1_0000_0000 % 0x100) as u8
    } else if i == 5 {
        (v / 0x100_0000_0000 % 0x100) as u8
    } else if i == 6 {
        (v / 0x1_0000_0000_0000 % 0x100) as u8
    } else {
        (v / 0x100_0000_0000_0000 % 0x100) as u8
    }
}

/// The eight bytes of `v`, least significant first.
pub open spec fn u64_le_bytes(v: u64) -> Seq<u8> {
    Seq::new(8, |i: int| byte_of(v as int, i))
}

/// The four bytes of `v`, least significant first.
pub open spec fn u32_le_bytes(v: u32) -> Seq<u8> {
    Seq::new(4, |i: int| byte_of(v as int, i))
}

/// The integer whose little-endian bytes are `s[off .. off + 8]`.
pub open spec fn u64_at(s: Seq<u8>, off: int) -> u64 {
    (s[off] as int + s[off + 1] as int * 0x100 + s[off + 2] as int * 0x1_0000 + s[off + 3] as int
        * 0x100_0000 + s[off + 4] as int * 0x1_0000_0000 + s[off + 5] as int * 0x100_0000_0000
        + s[off + 6] as int * 0x1_0000_0000_0000 + s[off + 7] as int * 0x100_0000_0000_0000) as u64
}

/// The integer whose little-endian bytes are `s[off .. off + 4]`.
pub open spec fn u32_at(s: Seq<u8>, off: int) -> u32 {
    (s[off] as int + s[off + 1] as int * 0x100 + s[off + 2] as int * 0x1_0000 + s[off + 3] as int
        * 0x100_0000) as u32
}

/// `s` holds the bytes `field` from `off` on.
pub open spec fn holds_at(s: Seq<u8>, off: int, field: Seq<u8>) -> bool {
    &&& 0 <= off
    &&& off + field.len() <= s.len()
    &&& forall|i: int| 0 <= i < field.len() ==> s[off + i] == #[trigger] field[i]
}

proof fn lemma_u64_is_sum_of_bytes(v: u64)
    by (bit_vector)
    ensures
        v == (v % 0x100) + (v / 0x100 % 0x100) * 0x100 + (v / 0x1_0000 % 0x100) * 0x1_0000 + (v
            / 0x100_0000 % 0x100) * 0x100_0000 + (v / 0x1_0000_0000 % 0x100) * 0x1_0000_0000 + (v
            / 0x100_0000_0000 % 0x100) * 0x100_0000_0000 + (v / 0x1_0000_0000_0000 % 0x100)
            * 0x1_0000_0000_0000 + (v / 0x100_0000_0000_0000 % 0x100) * 0x100_0000_0000_0000,
{
}

proof fn lemma_bytes_of_sum(b0: u64, b1: u64, b2: u64, b3: u64, b4: u64, b5: u64, b6: u64, b7: u64)
    by (bit_vector)
    requires
        b0 < 0x100,
        b1 < 0x100,
        b2 < 0x100,
        b3 < 0x100,
        b4 < 0x100,
        b5 < 0x100,
        b6 < 0x100,
        b7 < 0x100,
    ensures
        ({
            let v: u64 = (b0 + b1 * 0x100 + b2 * 0x1_0000 + b3 * 0x100_0000 + b4 * 0x1_0000_0000
                + b5 * 0x100_0000_0000 + b6 * 0x1_0000_0000_0000 + b7
                * 0x100_0000_0000_0000) as u64;
            &&& v % 0x100 == b0
            &&& v / 0x100 % 0x100 == b1
            &&& v / 0x1_0000 % 0x100 == b2
            &&& v / 0x100_0000 % 0x100 == b3
            &&& v / 0x1_0000_0000 % 0x100 == b4
            &&& v / 0x100_0000_0000 % 0x100 == b5
            &&& v / 0x1_0000_0000_0000 % 0x100 == b6
            &&& v / 0x100_0000_0000_0000 % 0x100 == b7
        }),
{
}

/// Decoding undoes encoding, wherever in a buffer the eight bytes lie.
pub proof fn lemma_u64_roundtrip(s: Seq<u8>, off: int, v: u64)
    requires
        holds_at(s, off, u64_le_bytes(v)),
    ensures
        u64_at(s, off) == v,
{
    let f = u64_le_bytes(v);
    lemma_u64_is_sum_of_bytes(v);
    assert(s[off + 0] == f[0] && s[off + 1] == f[1] && s[off + 2] == f[2] && s[off + 3] == f[3]
        && s[off + 4] == f[4] && s[off + 5] == f[5] && s[off + 6] == f[6] && s[off + 7] == f[7]);
}

/// Decoding undoes encoding, wherever in a buffer the four bytes lie.
pub proof fn lemma_u32_roundtrip(s: Seq<u8>, off: int, v: u32)
    requires
        holds_at(s, off, u32_le_bytes(v)),
    ensures
        u32_at(s, off) == v,
{
    let f = u32_le_bytes(v);
    assert(s[off + 0] == f[0] && s[off + 1] == f[1] && s[off + 2] == f[2] && s[off + 3] == f[3]);
}

/// Encoding undoes decoding: the bytes a decoded integer encodes to are the
/// bytes it was read from.
pub proof fn lemma_u64_bytes_of_decoded(s: Seq<u8>, off: int)
    requires
        0 <= off,
        off + 8 <= s.len(),
    ensures
        holds_at(s, off, u64_le_bytes(u64_at(s, off))),
{
    let v = u64_at(s, off);
    let f = u64_le_bytes(v);
    lemma_bytes_of_sum(
        s[off] as u64,
        s[off + 1] as u64,
        s[off + 2] as u64,
        s[off + 3] as u64,
        s[off + 4] as u64,
        s[off + 5] as u64,
        s[off + 6] as u64,
        s[off + 7] as u64,
    );
    assert forall|i: int| 0 <= i < f.len() implies s[off + i] == #[trigger] f[i] by {
        assert(f[i] == byte_of(v as int, i));
    }
}

/// Reads a little-endian `u64` at `off`.
pub fn get_u64_le(data: &[u8], off: usize) -> (v: u64)
    requires
        off + 8 <= data.len(),
    ensures
        v == u64_at(data@, off as int),
{
    (data[off] as u64) + (data[off + 1] as u64) * 0x100 + (data[off + 2] as u64) * 0x1_0000 + (
    data[off + 3] as u64) * 0x100_0000 + (data[off + 4] as u64) * 0x1_0000_0000 + (data[off
        + 5] as u64) * 0x100_0000_0000 + (data[off + 6] as u64) * 0x1_0000_0000_0000 + (data[off
        + 7] as u64) * 0x100_0000_0000_0000
}

/// Reads a little-endian `u32` at `off`.
pub fn get_u32_le(data: &[u8], off: usize) -> (v: u32)
    requires
        off + 4 <= data.len(),
    ensures
        v == u32_at(data@, off as int),
{
    (data[off] as u32) + (data[off + 1] as u32) * 0x100 + (data[off + 2] as u32) * 0x1_0000 + (
    data[off + 3] as u32) * 0x100_0000
}

/// Byte `i` of a 64-bit value, for `i` below 8.
pub fn u64_byte(v: u64, i: usize) -> (b: u8)
    requires
        i < 8,
    ensures
        b == byte_of(v as int, i as int),
{
    let shifted: u64 = if i == 0 {
        v
    } else if i == 1 {
        v / 0x100
    } else if i == 2 {
        v / 0x1_0000
    } else if i == 3 {
        v / 0x100_0000
    } else if i == 4 {
        v / 0x1_0000_0000
    } else if i == 5 {
        v / 0x100_0000_0000
    } else if i == 6 {
        v / 0x1_0000_0000_0000
    } else {
        v / 0x100_0000_0000_0000
    };
    (shifted % 0x100) as u8
}

/// `after` differs from `before` at most in the `len` bytes from `off` on.
pub open spec fn same_outside(before: Seq<u8>, after: Seq<u8>, off: int, len: int) -> bool {
    &&& after.len() == before.len()
    &&& forall|i: int| 0 <= i < before.len() && !(off <= i < off + len) ==> after[i] == before[i]
}

/// Writes the eight little-endian bytes of `v` at `off`.
pub fn put_u64_le(buf: &mut [u8], off: usize, v: u64)
    requires
        off + 8 <= old(buf)@.len(),
    ensures
        holds_at(final(buf)@, off as int, u64_le_bytes(v)),
        same_outside(old(buf)@, final(buf)@, off as int, 8),
{
    buf[off] = u64_byte(v, 0);
    buf[off + 1] = u64_byte(v, 1);
    buf[off + 2] = u64_byte(v, 2);
    buf[off + 3] = u64_byte(v, 3);
    buf[off + 4] = u64_byte(v, 4);
    buf[off + 5] = u64_byte(v, 5);
    buf[off + 6] = u64_byte(v, 6);
    buf[off + 7] = u64_byte(v, 7);
}

/// Writes the four little-endian bytes of `v` at `off`.
pub fn put_u32_le(buf: &mut [u8], off: usize, v: u32)
    requires
        off + 4 <= old(buf)@.len(),
    ensures
        holds_at(final(buf)@, off as int, u32_le_bytes(v)),
        same_outside(old(buf)@, final(buf)@, off as int, 4),
{
    buf[off] = u64_byte(v as u64, 0);
    buf[off + 1] = u64_byte(v as u64, 1);
    buf[off + 2] = u64_byte(v as u64, 2);
    buf[off + 3] = u64_byte(v as u64, 3);
}

} // verus!
