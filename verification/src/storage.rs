//! A strategy's private storage: 1024 bytes that persist for a whole
//! simulation, read and written as 128 little-endian 64-bit slots.

use crate::le::{get_u64_le, holds_at, lemma_u64_roundtrip, put_u64_le, u64_at, u64_le_bytes};
use vstd::prelude::*;

verus! {

/// Bytes of storage each strategy owns.
pub const STORAGE_SIZE: usize = 1024;

/// 64-bit slots in a storage buffer.
pub const STORAGE_SLOTS: usize = 128;

/// A strategy's storage buffer.
pub type Storage = [u8; STORAGE_SIZE];

/// The integer held in slot `slot` of a storage buffer.
pub open spec fn slot_value(storage: Seq<u8>, slot: int) -> u64 {
    u64_at(storage, slot * 8)
}

/// A zeroed storage buffer, as every pool starts with.
pub fn empty_storage() -> (storage: Storage)
    ensures
        forall|i: int| 0 <= i < STORAGE_SIZE ==> storage@[i] == 0,
{
    [0u8; STORAGE_SIZE]
}

/// Reads slot `slot`, the eight bytes from offset `slot * 8`.
pub fn read_u64(storage: &Storage, slot: usize) -> (v: u64)
    requires
        slot < STORAGE_SLOTS,
    ensures
        v == slot_value(storage@, slot as int),
{
    get_u64_le(storage.as_slice(), slot * 8)
}

/// Writes `val` into slot `slot` and leaves every other byte as it was.
pub fn write_u64(storage: &mut Storage, slot: usize, val: u64)
    requires
        slot < STORAGE_SLOTS,
    ensures
        holds_at(final(storage)@, slot * 8, u64_le_bytes(val)),
        slot_value(final(storage)@, slot as int) == val,
        forall|i: int|
            0 <= i < STORAGE_SIZE && !(slot * 8 <= i < slot * 8 + 8) ==> final(storage)@[i] == old(
                storage,
            )@[i],
        forall|other: int|
            0 <= other < STORAGE_SLOTS && other != slot ==> slot_value(final(storage)@, other)
                == slot_value(old(storage)@, other),
{
    let off = slot * 8;
    put_u64_le(storage, off, val);
    proof {
        lemma_u64_roundtrip(storage@, off as int, val);
    }
}

} // verus!
