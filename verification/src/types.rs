//! Engine-side data: wire payload headers, pool state and epoch summaries.
//!
//! Prices, edges and weights are floating-point quantities. This crate never
//! computes with them; where the engine stores or transmits one, the field
//! holds its IEEE-754 bit pattern (`_bits`), exactly as it goes on the wire.

pub use crate::fixed_point::SCALE;
use crate::market::{apply_cpamm_trade, saturating_difference, saturating_sum};
use crate::storage::{empty_storage, Storage, STORAGE_SIZE};
use vstd::prelude::*;

verus! {

/// The most strategies that may compete, the reference pool not counted.
pub const MAX_STRATEGIES: usize = 16;

/// Peer spot prices carried by an after-swap payload.
pub const PEER_SLOTS: usize = 8;

/// Tag of a quote request for a trade that buys X (Y is the input).
pub const TAG_SWAP_BUY: u8 = 0;

/// Tag of a quote request for a trade that sells X (X is the input).
pub const TAG_SWAP_SELL: u8 = 1;

/// Tag of the after-swap notification.
pub const TAG_AFTER_SWAP: u8 = 2;

/// Tag of the request for a strategy's name.
pub const TAG_GET_NAME: u8 = 3;

/// Tag of the request for a strategy's model description.
pub const TAG_GET_MODEL: u8 = 4;

/// Tag of the epoch-boundary notification.
pub const TAG_EPOCH_BOUNDARY: u8 = 5;

/// Bit pattern of the binary64 value 0.0.
pub const ZERO_BITS: u64 = 0;

/// Bit pattern of the binary64 value 1.0.
pub const ONE_BITS: u64 = 0x3FF0_0000_0000_0000;

/// Bit pattern of the binary32 quiet NaN that marks an unused peer slot.
pub const UNUSED_SPOT_BITS: u32 = 0x7FC0_0000;

/// Bytes of a quote request: tag, three 64-bit fields, storage.
pub const QUOTE_WIRE_LEN: usize = 1049;

/// Bytes of an after-swap header.
pub const AFTER_SWAP_HEADER_LEN: usize = 92;

/// Bytes of an after-swap notification: header and storage.
pub const AFTER_SWAP_WIRE_LEN: usize = 1116;

/// Bytes of an epoch-boundary header.
pub const EPOCH_HEADER_LEN: usize = 41;

/// Bytes of an epoch-boundary notification: header and storage.
pub const EPOCH_WIRE_LEN: usize = 1065;

/// A quote request.
#[derive(Clone, Copy, Debug)]
pub struct ComputeSwapPayload {
    /// `TAG_SWAP_BUY` or `TAG_SWAP_SELL`.
    pub tag: u8,
    pub input_amount: u64,
    pub reserve_x: u64,
    pub reserve_y: u64,
    pub storage: Storage,
}

/// What a strategy is told after every trade against its pool.
#[derive(Clone, Copy, Debug)]
pub struct AfterSwapPayload {
    /// `TAG_AFTER_SWAP`; the encoder writes that tag whatever this holds.
    pub tag: u8,
    /// 0 for a trade that bought X, 1 for one that sold X.
    pub side: u8,
    pub input_amount: u64,
    pub output_amount: u64,
    /// Reserves after the trade.
    pub reserve_x: u64,
    pub reserve_y: u64,
    /// Step of the simulation.
    pub sim_step: u64,
    /// Step within the current epoch.
    pub epoch_step: u32,
    pub epoch_number: u32,
    /// Pools competing, the reference pool included.
    pub n_strategies: u8,
    pub strategy_index: u8,
    /// binary32 share of the routed order this pool took; 0.0 for arbitrage.
    pub flow_captured_bits: u32,
    /// binary32 share of protocol capital this pool holds.
    pub capital_weight_bits: u32,
    /// binary32 spot prices of the peers; `UNUSED_SPOT_BITS` where unused.
    pub competing_spot_price_bits: [u32; PEER_SLOTS],
    /// The pool's storage when the payload was built. The encoder sends the
    /// storage it is handed, not this copy.
    pub storage: Storage,
}

/// What a strategy is told when an epoch ends and capital is reallocated.
#[derive(Clone, Copy, Debug)]
pub struct EpochBoundaryPayload {
    /// `TAG_EPOCH_BOUNDARY`; the encoder writes that tag whatever this holds.
    pub tag: u8,
    /// The epoch that just ended.
    pub epoch_number: u32,
    pub new_reserve_x: u64,
    pub new_reserve_y: u64,
    /// binary64 edge earned in that epoch.
    pub epoch_edge_bits: u64,
    /// binary64 edge earned so far.
    pub cumulative_edge_bits: u64,
    /// binary32 share of protocol capital from now on.
    pub capital_weight_bits: u32,
    /// The pool's storage when the payload was built. The encoder sends the
    /// storage it is handed, not this copy.
    pub storage: Storage,
}

/// Live state of one pool.
#[derive(Clone, Debug)]
pub struct AmmState {
    pub reserve_x: u64,
    pub reserve_y: u64,
    /// Owned by the pool's strategy; the engine only carries it.
    pub storage: Storage,
    /// binary64 running sum of edge over the whole simulation.
    pub cumulative_edge_bits: u64,
    /// binary64 running sum of edge over the current epoch.
    pub epoch_edge_bits: u64,
    /// Trades against this pool in the current epoch.
    pub epoch_trade_count: u64,
    /// binary64 share of protocol capital.
    pub capital_weight_bits: u64,
    pub strategy_index: u8,
    pub name: String,
}

/// One pool's record of one epoch.
#[derive(Clone, Copy, Debug)]
pub struct EpochSummary {
    pub epoch_number: u32,
    /// binary64 edge of the epoch.
    pub edge_bits: u64,
    pub trade_count: u64,
    /// binary64 negative part of the edge.
    pub arb_losses_bits: u64,
    /// binary64 positive part of the edge.
    pub retail_gains_bits: u64,
    /// binary64 risk-adjusted score of the epoch.
    pub risk_adjusted_score_bits: u64,
}

impl AmmState {
    /// Both reserves are at least one unit, so the pool has a spot price.
    pub open spec fn has_liquidity(&self) -> bool {
        self.reserve_x >= 1 && self.reserve_y >= 1
    }

    /// `self` is `before` but for the reserves and the epoch's trade count:
    /// what a trade may change of a pool apart from its edge.
    pub open spec fn same_pool_as(&self, before: AmmState) -> bool {
        &&& self.storage == before.storage
        &&& self.cumulative_edge_bits == before.cumulative_edge_bits
        &&& self.epoch_edge_bits == before.epoch_edge_bits
        &&& self.capital_weight_bits == before.capital_weight_bits
        &&& self.strategy_index == before.strategy_index
        &&& self.name == before.name
    }

    /// Books a trade that has been executed against this pool: the reserves
    /// move by the trade, and the epoch's trade count goes up by one. The
    /// edge accumulators are left to the caller, who knows the fair price.
    pub fn apply_trade(&mut self, is_buy: bool, input: u64, output: u64)
        requires
            old(self).epoch_trade_count < u64::MAX,
        ensures
            is_buy ==> final(self).reserve_y == saturating_sum(old(self).reserve_y, input),
            is_buy ==> final(self).reserve_x == saturating_difference(old(self).reserve_x, output),
            !is_buy ==> final(self).reserve_x == saturating_sum(old(self).reserve_x, input),
            !is_buy ==> final(self).reserve_y == saturating_difference(
                old(self).reserve_y,
                output,
            ),
            final(self).epoch_trade_count == old(self).epoch_trade_count + 1,
            final(self).same_pool_as(*old(self)),
    {
        apply_cpamm_trade(&mut self.reserve_x, &mut self.reserve_y, is_buy, input, output);
        self.epoch_trade_count = self.epoch_trade_count + 1;
    }

    /// A fresh pool: the given reserves, zeroed storage, no edge, no trades,
    /// and the whole of the capital until weights are assigned.
    pub fn new(reserve_x: u64, reserve_y: u64, idx: u8, name: &str) -> (amm: AmmState)
        ensures
            amm.reserve_x == reserve_x,
            amm.reserve_y == reserve_y,
            forall|i: int| 0 <= i < STORAGE_SIZE ==> amm.storage@[i] == 0,
            amm.cumulative_edge_bits == ZERO_BITS,
            amm.epoch_edge_bits == ZERO_BITS,
            amm.epoch_trade_count == 0,
            amm.capital_weight_bits == ONE_BITS,
            amm.strategy_index == idx,
            amm.name@ == name@,
    {
        AmmState {
            reserve_x,
            reserve_y,
            storage: empty_storage(),
            cumulative_edge_bits: ZERO_BITS,
            epoch_edge_bits: ZERO_BITS,
            epoch_trade_count: 0,
            capital_weight_bits: ONE_BITS,
            strategy_index: idx,
            name: name.to_owned(),
        }
    }
}

} // verus!
