//! The strategy wire format, as predicates on byte strings.
//!
//! Each predicate lists the fields of one message with their offsets; the
//! fields tile the message, so a predicate fixes every byte. All integers
//! are little-endian, and floating-point fields travel as their bits.

use crate::le::{holds_at, u32_le_bytes, u64_le_bytes};
use crate::storage::STORAGE_SIZE;
use crate::types::{
    AfterSwapPayload, EpochBoundaryPayload, AFTER_SWAP_HEADER_LEN, AFTER_SWAP_WIRE_LEN,
    EPOCH_HEADER_LEN, EPOCH_WIRE_LEN, PEER_SLOTS, QUOTE_WIRE_LEN, TAG_AFTER_SWAP,
    TAG_EPOCH_BOUNDARY, TAG_SWAP_BUY, TAG_SWAP_SELL,
};
use vstd::prelude::*;

verus! {

/// The tag byte of a quote request for the given direction.
pub open spec fn quote_tag(is_buy: bool) -> u8 {
    if is_buy {
        TAG_SWAP_BUY
    } else {
        TAG_SWAP_SELL
    }
}

/// `bytes` is the quote request `tag(1) | input(8) | reserve_x(8) |
/// reserve_y(8) | storage(1024)`.
pub open spec fn is_quote_wire(
    bytes: Seq<u8>,
    is_buy: bool,
    input: u64,
    reserve_x: u64,
    reserve_y: u64,
    storage: Seq<u8>,
) -> bool {
    &&& bytes.len() == QUOTE_WIRE_LEN
    &&& bytes[0] == quote_tag(is_buy)
    &&& holds_at(bytes, 1, u64_le_bytes(input))
    &&& holds_at(bytes, 9, u64_le_bytes(reserve_x))
    &&& holds_at(bytes, 17, u64_le_bytes(reserve_y))
    &&& holds_at(bytes, 25, storage)
}

/// The first sixty bytes of an after-swap header hold the scalar fields.
pub open spec fn after_swap_scalars(bytes: Seq<u8>, p: AfterSwapPayload) -> bool {
    &&& bytes.len() >= AFTER_SWAP_HEADER_LEN
    &&& bytes[0] == TAG_AFTER_SWAP
    &&& bytes[1] == p.side
    &&& holds_at(bytes, 2, u64_le_bytes(p.input_amount))
    &&& holds_at(bytes, 10, u64_le_bytes(p.output_amount))
    &&& holds_at(bytes, 18, u64_le_bytes(p.reserve_x))
    &&& holds_at(bytes, 26, u64_le_bytes(p.reserve_y))
    &&& holds_at(bytes, 34, u64_le_bytes(p.sim_step))
    &&& holds_at(bytes, 42, u32_le_bytes(p.epoch_step))
    &&& holds_at(bytes, 46, u32_le_bytes(p.epoch_number))
    &&& bytes[50] == p.n_strategies
    &&& bytes[51] == p.strategy_index
    &&& holds_at(bytes, 52, u32_le_bytes(p.flow_captured_bits))
    &&& holds_at(bytes, 56, u32_le_bytes(p.capital_weight_bits))
}

/// The first `n` peer prices of an after-swap header lie from byte 60 on.
pub open spec fn after_swap_peers(bytes: Seq<u8>, p: AfterSwapPayload, n: int) -> bool {
    forall|j: int|
        0 <= j < n ==> holds_at(
            bytes,
            60 + 4 * j,
            u32_le_bytes(#[trigger] p.competing_spot_price_bits@[j]),
        )
}

/// `bytes` is the after-swap notification for `p`: the 92-byte header, then
/// the storage snapshot.
pub open spec fn is_after_swap_wire(bytes: Seq<u8>, p: AfterSwapPayload, storage: Seq<u8>) -> bool {
    &&& bytes.len() == AFTER_SWAP_WIRE_LEN
    &&& after_swap_scalars(bytes, p)
    &&& after_swap_peers(bytes, p, PEER_SLOTS as int)
    &&& holds_at(bytes, AFTER_SWAP_HEADER_LEN as int, storage)
}

/// The 41-byte epoch-boundary header holds the fields of `p`.
pub open spec fn epoch_boundary_header(bytes: Seq<u8>, p: EpochBoundaryPayload) -> bool {
    &&& bytes.len() >= EPOCH_HEADER_LEN
    &&& bytes[0] == TAG_EPOCH_BOUNDARY
    &&& holds_at(bytes, 1, u32_le_bytes(p.epoch_number))
    &&& holds_at(bytes, 5, u64_le_bytes(p.new_reserve_x))
    &&& holds_at(bytes, 13, u64_le_bytes(p.new_reserve_y))
    &&& holds_at(bytes, 21, u64_le_bytes(p.epoch_edge_bits))
    &&& holds_at(bytes, 29, u64_le_bytes(p.cumulative_edge_bits))
    &&& holds_at(bytes, 37, u32_le_bytes(p.capital_weight_bits))
}

/// `bytes` is the epoch-boundary notification for `p`: the 41-byte header,
/// then the storage snapshot.
pub open spec fn is_epoch_boundary_wire(
    bytes: Seq<u8>,
    p: EpochBoundaryPayload,
    storage: Seq<u8>,
) -> bool {
    &&& bytes.len() == EPOCH_WIRE_LEN
    &&& epoch_boundary_header(bytes, p)
    &&& holds_at(bytes, EPOCH_HEADER_LEN as int, storage)
}

/// Two byte strings that hold the same field at the same place agree there.
proof fn lemma_same_field(a: Seq<u8>, b: Seq<u8>, off: int, field: Seq<u8>)
    requires
        holds_at(a, off, field),
        holds_at(b, off, field),
    ensures
        forall|i: int| off <= i < off + field.len() ==> a[i] == b[i],
{
    assert forall|i: int| off <= i < off + field.len() implies a[i] == b[i] by {
        let k = i - off;
        assert(a[off + k] == field[k]);
        assert(b[off + k] == field[k]);
    }
}

/// A quote request has one encoding.
pub proof fn lemma_quote_wire_unique(
    a: Seq<u8>,
    b: Seq<u8>,
    is_buy: bool,
    input: u64,
    reserve_x: u64,
    reserve_y: u64,
    storage: Seq<u8>,
)
    requires
        storage.len() == STORAGE_SIZE,
        is_quote_wire(a, is_buy, input, reserve_x, reserve_y, storage),
        is_quote_wire(b, is_buy, input, reserve_x, reserve_y, storage),
    ensures
        a == b,
{
    lemma_same_field(a, b, 1, u64_le_bytes(input));
    lemma_same_field(a, b, 9, u64_le_bytes(reserve_x));
    lemma_same_field(a, b, 17, u64_le_bytes(reserve_y));
    lemma_same_field(a, b, 25, storage);
    assert(a =~= b);
}

/// An after-swap notification has one encoding.
pub proof fn lemma_after_swap_wire_unique(
    a: Seq<u8>,
    b: Seq<u8>,
    p: AfterSwapPayload,
    storage: Seq<u8>,
)
    requires
        storage.len() == STORAGE_SIZE,
        is_after_swap_wire(a, p, storage),
        is_after_swap_wire(b, p, storage),
    ensures
        a == b,
{
    lemma_same_field(a, b, 2, u64_le_bytes(p.input_amount));
    lemma_same_field(a, b, 10, u64_le_bytes(p.output_amount));
    lemma_same_field(a, b, 18, u64_le_bytes(p.reserve_x));
    lemma_same_field(a, b, 26, u64_le_bytes(p.reserve_y));
    lemma_same_field(a, b, 34, u64_le_bytes(p.sim_step));
    lemma_same_field(a, b, 42, u32_le_bytes(p.epoch_step));
    lemma_same_field(a, b, 46, u32_le_bytes(p.epoch_number));
    lemma_same_field(a, b, 52, u32_le_bytes(p.flow_captured_bits));
    lemma_same_field(a, b, 56, u32_le_bytes(p.capital_weight_bits));
    lemma_same_field(a, b, 92, storage);
    assert forall|i: int| 60 <= i < 92 implies a[i] == b[i] by {
        let j = (i - 60) / 4;
        lemma_same_field(a, b, 60 + 4 * j, u32_le_bytes(p.competing_spot_price_bits@[j]));
    }
    assert(a =~= b);
}

/// An epoch-boundary notification has one encoding.
pub proof fn lemma_epoch_boundary_wire_unique(
    a: Seq<u8>,
    b: Seq<u8>,
    p: EpochBoundaryPayload,
    storage: Seq<u8>,
)
    requires
        storage.len() == STORAGE_SIZE,
        is_epoch_boundary_wire(a, p, storage),
        is_epoch_boundary_wire(b, p, storage),
    ensures
        a == b,
{
    lemma_same_field(a, b, 1, u32_le_bytes(p.epoch_number));
    lemma_same_field(a, b, 5, u64_le_bytes(p.new_reserve_x));
    lemma_same_field(a, b, 13, u64_le_bytes(p.new_reserve_y));
    lemma_same_field(a, b, 21, u64_le_bytes(p.epoch_edge_bits));
    lemma_same_field(a, b, 29, u64_le_bytes(p.cumulative_edge_bits));
    lemma_same_field(a, b, 37, u32_le_bytes(p.capital_weight_bits));
    lemma_same_field(a, b, 41, storage);
    assert(a =~= b);
}

} // verus!
