//! The strategy's side of the wire: typed views of the three messages.
//!
//! A decoder accepts any buffer that is long enough for the fields it reads
//! and ignores what follows them. Floating-point fields are handed over as
//! their bits.

use crate::le::{
    get_u32_le, get_u64_le, holds_at, lemma_u32_roundtrip, lemma_u64_roundtrip, u32_at, u64_at,
};
use crate::storage::{Storage, STORAGE_SIZE};
use crate::types::{
    AfterSwapPayload, EpochBoundaryPayload, AFTER_SWAP_HEADER_LEN, EPOCH_HEADER_LEN, PEER_SLOTS,
    QUOTE_WIRE_LEN, UNUSED_SPOT_BITS,
};
use crate::wire::{after_swap_peers, after_swap_scalars, epoch_boundary_header, is_quote_wire};
use vstd::prelude::*;

verus! {

/// What a strategy is asked to quote.
#[derive(Clone, Copy, Debug)]
pub struct SwapContext {
    /// The trade buys X: Y is the input.
    pub is_buy: bool,
    pub input_amount: u64,
    pub reserve_x: u64,
    pub reserve_y: u64,
    /// The strategy's storage, to read.
    pub storage: Storage,
}

impl SwapContext {
    /// `self` is what the first 1049 bytes of `bytes` say.
    pub open spec fn decodes(&self, bytes: Seq<u8>) -> bool {
        &&& self.is_buy == (bytes[0] == 0)
        &&& self.input_amount == u64_at(bytes, 1)
        &&& self.reserve_x == u64_at(bytes, 9)
        &&& self.reserve_y == u64_at(bytes, 17)
        &&& holds_at(bytes, 25, self.storage@)
    }

    /// Decodes a quote request; `None` for a buffer of fewer than 1049
    /// bytes.
    pub fn from_bytes(data: &[u8]) -> (r: Option<SwapContext>)
        ensures
            r is None <==> data@.len() < QUOTE_WIRE_LEN,
            r matches Some(ctx) ==> ctx.decodes(data@),
    {
        if data.len() < QUOTE_WIRE_LEN {
            return None;
        }
        let mut storage: Storage = [0u8; STORAGE_SIZE];
        let mut i: usize = 0;
        while i < STORAGE_SIZE
            invariant
                i <= STORAGE_SIZE,
                data@.len() >= QUOTE_WIRE_LEN,
                forall|k: int| 0 <= k < i ==> data@[25 + k] == #[trigger] storage@[k],
            decreases STORAGE_SIZE - i,
        {
            storage[i] = data[25 + i];
            i = i + 1;
        }
        Some(
            SwapContext {
                is_buy: data[0] == 0,
                input_amount: get_u64_le(data, 1),
                reserve_x: get_u64_le(data, 9),
                reserve_y: get_u64_le(data, 17),
                storage,
            },
        )
    }
}

/// What a strategy learns after a trade against its pool.
#[derive(Clone, Copy, Debug)]
pub struct AfterSwapContext {
    /// The trade bought X.
    pub is_buy: bool,
    pub input_amount: u64,
    pub output_amount: u64,
    /// Reserves after the trade.
    pub reserve_x: u64,
    pub reserve_y: u64,
    pub sim_step: u64,
    /// Step within the current epoch.
    pub epoch_step: u32,
    pub epoch_number: u32,
    /// Pools competing, the reference pool included.
    pub n_strategies: u8,
    pub strategy_index: u8,
    /// binary32 share of the routed order this pool took.
    pub flow_captured_bits: u32,
    /// binary32 share of protocol capital this pool holds.
    pub capital_weight_bits: u32,
    /// binary32 spot prices of the peers; a NaN marks an unused slot.
    pub competing_spot_price_bits: [u32; PEER_SLOTS],
}

impl AfterSwapContext {
    /// `self` is what the first 92 bytes of `bytes` say.
    pub open spec fn decodes(&self, bytes: Seq<u8>) -> bool {
        &&& self.is_buy == (bytes[1] == 0)
        &&& self.input_amount == u64_at(bytes, 2)
        &&& self.output_amount == u64_at(bytes, 10)
        &&& self.reserve_x == u64_at(bytes, 18)
        &&& self.reserve_y == u64_at(bytes, 26)
        &&& self.sim_step == u64_at(bytes, 34)
        &&& self.epoch_step == u32_at(bytes, 42)
        &&& self.epoch_number == u32_at(bytes, 46)
        &&& self.n_strategies == bytes[50]
        &&& self.strategy_index == bytes[51]
        &&& self.flow_captured_bits == u32_at(bytes, 52)
        &&& self.capital_weight_bits == u32_at(bytes, 56)
        &&& forall|j: int|
            0 <= j < PEER_SLOTS ==> #[trigger] self.competing_spot_price_bits@[j] == u32_at(
                bytes,
                60 + 4 * j,
            )
    }

    /// Decodes an after-swap header; `None` for a buffer of fewer than 92
    /// bytes.
    pub fn from_bytes(data: &[u8]) -> (r: Option<AfterSwapContext>)
        ensures
            r is None <==> data@.len() < AFTER_SWAP_HEADER_LEN,
            r matches Some(ctx) ==> ctx.decodes(data@),
    {
        if data.len() < AFTER_SWAP_HEADER_LEN {
            return None;
        }
        let mut peers: [u32; PEER_SLOTS] = [UNUSED_SPOT_BITS; PEER_SLOTS];
        let mut j: usize = 0;
        while j < PEER_SLOTS
            invariant
                j <= PEER_SLOTS,
                data@.len() >= AFTER_SWAP_HEADER_LEN,
                forall|k: int| 0 <= k < j ==> #[trigger] peers@[k] == u32_at(data@, 60 + 4 * k),
            decreases PEER_SLOTS - j,
        {
            peers[j] = get_u32_le(data, 60 + j * 4);
            j = j + 1;
        }
        Some(
            AfterSwapContext {
                is_buy: data[1] == 0,
                input_amount: get_u64_le(data, 2),
                output_amount: get_u64_le(data, 10),
                reserve_x: get_u64_le(data, 18),
                reserve_y: get_u64_le(data, 26),
                sim_step: get_u64_le(data, 34),
                epoch_step: get_u32_le(data, 42),
                epoch_number: get_u32_le(data, 46),
                n_strategies: data[50],
                strategy_index: data[51],
                flow_captured_bits: get_u32_le(data, 52),
                capital_weight_bits: get_u32_le(data, 56),
                competing_spot_price_bits: peers,
            },
        )
    }
}

/// What a strategy learns when an epoch ends.
#[derive(Clone, Copy, Debug)]
pub struct EpochContext {
    /// The epoch that just ended.
    pub epoch_number: u32,
    pub new_reserve_x: u64,
    pub new_reserve_y: u64,
    /// binary64 edge earned in that epoch.
    pub epoch_edge_bits: u64,
    /// binary64 edge earned so far.
    pub cumulative_edge_bits: u64,
    /// binary32 share of protocol capital from now on.
    pub capital_weight_bits: u32,
}

impl EpochContext {
    /// `self` is what the first 41 bytes of `bytes` say.
    pub open spec fn decodes(&self, bytes: Seq<u8>) -> bool {
        &&& self.epoch_number == u32_at(bytes, 1)
        &&& self.new_reserve_x == u64_at(bytes, 5)
        &&& self.new_reserve_y == u64_at(bytes, 13)
        &&& self.epoch_edge_bits == u64_at(bytes, 21)
        &&& self.cumulative_edge_bits == u64_at(bytes, 29)
        &&& self.capital_weight_bits == u32_at(bytes, 37)
    }

    /// Decodes an epoch-boundary header; `None` for a buffer of fewer than
    /// 41 bytes.
    pub fn from_bytes(data: &[u8]) -> (r: Option<EpochContext>)
        ensures
            r is None <==> data@.len() < EPOCH_HEADER_LEN,
            r matches Some(ctx) ==> ctx.decodes(data@),
    {
        if data.len() < EPOCH_HEADER_LEN {
            return None;
        }
        Some(
            EpochContext {
                epoch_number: get_u32_le(data, 1),
                new_reserve_x: get_u64_le(data, 5),
                new_reserve_y: get_u64_le(data, 13),
                epoch_edge_bits: get_u64_le(data, 21),
                cumulative_edge_bits: get_u64_le(data, 29),
                capital_weight_bits: get_u32_le(data, 37),
            },
        )
    }
}

/// A quote request decodes to what was encoded.
pub proof fn lemma_quote_wire_roundtrip(
    bytes: Seq<u8>,
    is_buy: bool,
    input: u64,
    reserve_x: u64,
    reserve_y: u64,
    storage: Seq<u8>,
    ctx: SwapContext,
)
    requires
        storage.len() == STORAGE_SIZE,
        is_quote_wire(bytes, is_buy, input, reserve_x, reserve_y, storage),
        ctx.decodes(bytes),
    ensures
        ctx.is_buy == is_buy,
        ctx.input_amount == input,
        ctx.reserve_x == reserve_x,
        ctx.reserve_y == reserve_y,
        ctx.storage@ == storage,
{
    lemma_u64_roundtrip(bytes, 1, input);
    lemma_u64_roundtrip(bytes, 9, reserve_x);
    lemma_u64_roundtrip(bytes, 17, reserve_y);
    assert forall|i: int| 0 <= i < STORAGE_SIZE implies ctx.storage@[i] == storage[i] by {
        assert(bytes[25 + i] == ctx.storage@[i]);
        assert(bytes[25 + i] == storage[i]);
    }
    assert(ctx.storage@ =~= storage);
}

/// An after-swap header decodes to what was encoded: every field of the
/// context is the payload's, and the direction is the payload's side.
pub proof fn lemma_after_swap_wire_roundtrip(
    bytes: Seq<u8>,
    p: AfterSwapPayload,
    ctx: AfterSwapContext,
)
    requires
        after_swap_scalars(bytes, p),
        after_swap_peers(bytes, p, PEER_SLOTS as int),
        ctx.decodes(bytes),
    ensures
        ctx.is_buy == (p.side == 0),
        ctx.input_amount == p.input_amount,
        ctx.output_amount == p.output_amount,
        ctx.reserve_x == p.reserve_x,
        ctx.reserve_y == p.reserve_y,
        ctx.sim_step == p.sim_step,
        ctx.epoch_step == p.epoch_step,
        ctx.epoch_number == p.epoch_number,
        ctx.n_strategies == p.n_strategies,
        ctx.strategy_index == p.strategy_index,
        ctx.flow_captured_bits == p.flow_captured_bits,
        ctx.capital_weight_bits == p.capital_weight_bits,
        ctx.competing_spot_price_bits@ == p.competing_spot_price_bits@,
{
    lemma_u64_roundtrip(bytes, 2, p.input_amount);
    lemma_u64_roundtrip(bytes, 10, p.output_amount);
    lemma_u64_roundtrip(bytes, 18, p.reserve_x);
    lemma_u64_roundtrip(bytes, 26, p.reserve_y);
    lemma_u64_roundtrip(bytes, 34, p.sim_step);
    lemma_u32_roundtrip(bytes, 42, p.epoch_step);
    lemma_u32_roundtrip(bytes, 46, p.epoch_number);
    lemma_u32_roundtrip(bytes, 52, p.flow_captured_bits);
    lemma_u32_roundtrip(bytes, 56, p.capital_weight_bits);
    assert forall|j: int| 0 <= j < PEER_SLOTS implies ctx.competing_spot_price_bits@[j]
        == p.competing_spot_price_bits@[j] by {
        lemma_u32_roundtrip(bytes, 60 + 4 * j, p.competing_spot_price_bits@[j]);
    }
    assert(ctx.competing_spot_price_bits@ =~= p.competing_spot_price_bits@);
}

/// An epoch-boundary header decodes to what was encoded.
pub proof fn lemma_epoch_boundary_wire_roundtrip(
    bytes: Seq<u8>,
    p: EpochBoundaryPayload,
    ctx: EpochContext,
)
    requires
        epoch_boundary_header(bytes, p),
        ctx.decodes(bytes),
    ensures
        ctx.epoch_number == p.epoch_number,
        ctx.new_reserve_x == p.new_reserve_x,
        ctx.new_reserve_y == p.new_reserve_y,
        ctx.epoch_edge_bits == p.epoch_edge_bits,
        ctx.cumulative_edge_bits == p.cumulative_edge_bits,
        ctx.capital_weight_bits == p.capital_weight_bits,
{
    lemma_u32_roundtrip(bytes, 1, p.epoch_number);
    lemma_u64_roundtrip(bytes, 5, p.new_reserve_x);
    lemma_u64_roundtrip(bytes, 13, p.new_reserve_y);
    lemma_u64_roundtrip(bytes, 21, p.epoch_edge_bits);
    lemma_u64_roundtrip(bytes, 29, p.cumulative_edge_bits);
    lemma_u32_roundtrip(bytes, 37, p.capital_weight_bits);
}

} // verus!
