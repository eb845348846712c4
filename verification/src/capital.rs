//! Capital accounting at an epoch boundary: what the pools hold together,
//! what reserve a share of it buys, and the installation of new reserves.
//!
//! The weights themselves come from floating-point scores and are the
//! caller's to compute; this module turns their integer consequences into
//! pool state.

use crate::types::{AmmState, EpochSummary, SCALE, ZERO_BITS};
use vstd::prelude::*;

verus! {

/// The Y reserves of the first `n` pools together.
pub open spec fn reserve_y_sum(amms: Seq<AmmState>, n: int) -> int
    decreases n,
{
    if n <= 0 {
        0
    } else {
        reserve_y_sum(amms, n - 1) + amms[n - 1].reserve_y
    }
}

/// The capital of the pools in Y terms: twice their Y reserves, the X side
/// of each pool being worth about as much as its Y side.
pub open spec fn total_capital(amms: Seq<AmmState>) -> int {
    2 * reserve_y_sum(amms, amms.len() as int)
}

proof fn lemma_reserve_y_sum_bound(amms: Seq<AmmState>, n: int)
    requires
        0 <= n <= amms.len(),
    ensures
        0 <= reserve_y_sum(amms, n) <= n * u64::MAX,
    decreases n,
{
    if n > 0 {
        lemma_reserve_y_sum_bound(amms, n - 1);
        assert((n - 1) * u64::MAX + u64::MAX == n * u64::MAX) by (nonlinear_arith);
    } else {
        assert(0 * u64::MAX == 0);
    }
}

/// The capital the pools hold, in scaled Y.
pub fn total_capital_y(amms: &[AmmState]) -> (total: u128)
    requires
        amms@.len() <= isize::MAX,
    ensures
        total == total_capital(amms@),
{
    let n = amms.len();
    let mut total: u128 = 0;
    let mut i: usize = 0;
    while i < n
        invariant
            i <= n,
            n == amms@.len(),
            n <= isize::MAX,
            total == 2 * reserve_y_sum(amms@, i as int),
        decreases n - i,
    {
        proof {
            lemma_reserve_y_sum_bound(amms@, i as int);
            assert(2 * (i * u64::MAX) + 2 * u64::MAX <= u128::MAX) by (nonlinear_arith)
                requires
                    0 <= i < 0x8000_0000_0000_0000,
            ;
        }
        total = total + (amms[i].reserve_y as u128) * 2;
        i = i + 1;
    }
    total
}

/// The Y reserve for a pool that is to hold `target_capital_y`: half of it,
/// but at least one token and at most what 64 bits hold.
pub open spec fn floored_reserve_y(target_capital_y: u128) -> u64 {
    if target_capital_y / 2 < SCALE {
        SCALE
    } else if target_capital_y / 2 > u64::MAX {
        u64::MAX
    } else {
        (target_capital_y / 2) as u64
    }
}

/// The Y reserve for a pool that is to hold `target_capital_y`.
pub fn reserve_y_for_capital(target_capital_y: u128) -> (reserve_y: u64)
    ensures
        reserve_y == floored_reserve_y(target_capital_y),
        reserve_y >= SCALE,
{
    let half = target_capital_y / 2;
    if half < SCALE as u128 {
        SCALE
    } else if half > u64::MAX as u128 {
        u64::MAX
    } else {
        half as u64
    }
}

/// What a pool is allotted at an epoch boundary.
#[derive(Clone, Copy, Debug)]
pub struct Allocation {
    /// The pool's share of the total capital, in scaled Y.
    pub target_capital_y: u128,
    /// The X reserve that keeps the pool's spot price with its new Y
    /// reserve, as the caller computed it.
    pub reserve_x: u64,
    /// binary64 weight the share was computed from.
    pub capital_weight_bits: u64,
}

/// `after` is `before` with `allocation` installed: the floored Y reserve, an
/// X reserve of at least one unit, the new weight, and a fresh epoch. Edge
/// earned so far, storage and identity stay.
pub open spec fn rebalanced(before: AmmState, allocation: Allocation, after: AmmState) -> bool {
    &&& after.reserve_y == floored_reserve_y(allocation.target_capital_y)
    &&& after.reserve_x == if allocation.reserve_x < 1 {
        1
    } else {
        allocation.reserve_x
    }
    &&& after.capital_weight_bits == allocation.capital_weight_bits
    &&& after.epoch_edge_bits == ZERO_BITS
    &&& after.epoch_trade_count == 0
    &&& after.cumulative_edge_bits == before.cumulative_edge_bits
    &&& after.storage == before.storage
    &&& after.strategy_index == before.strategy_index
    &&& after.name == before.name
}

/// Installs a pool's allocation and opens a new epoch for it.
pub fn rebalance_pool(amm: &mut AmmState, allocation: &Allocation)
    ensures
        rebalanced(*old(amm), *allocation, *final(amm)),
        final(amm).has_liquidity(),
{
    amm.reserve_y = reserve_y_for_capital(allocation.target_capital_y);
    amm.reserve_x = if allocation.reserve_x < 1 {
        1
    } else {
        allocation.reserve_x
    };
    amm.capital_weight_bits = allocation.capital_weight_bits;
    amm.epoch_edge_bits = ZERO_BITS;
    amm.epoch_trade_count = 0;
}

/// Installs every pool's allocation. Afterwards each pool has liquidity, no
/// edge and no trades in its new epoch, and what it had earned before.
pub fn rebalance_reserves(amms: &mut Vec<AmmState>, allocations: &[Allocation])
    requires
        allocations@.len() == old(amms)@.len(),
    ensures
        final(amms)@.len() == old(amms)@.len(),
        forall|i: int|
            0 <= i < old(amms)@.len() ==> rebalanced(
                old(amms)@[i],
                allocations@[i],
                #[trigger] final(amms)@[i],
            ),
        forall|i: int| 0 <= i < final(amms)@.len() ==> (#[trigger] final(amms)@[i]).has_liquidity(),
{
    let n = amms.len();
    let mut i: usize = 0;
    while i < n
        invariant
            i <= n,
            n == amms@.len(),
            amms@.len() == old(amms)@.len(),
            allocations@.len() == n,
            forall|k: int|
                0 <= k < i ==> rebalanced(old(amms)@[k], allocations@[k], #[trigger] amms@[k]),
            forall|k: int| 0 <= k < i ==> (#[trigger] amms@[k]).has_liquidity(),
            forall|k: int| i <= k < n ==> #[trigger] amms@[k] == old(amms)@[k],
        decreases n - i,
    {
        rebalance_pool(&mut amms[i], &allocations[i]);
        i = i + 1;
    }
}

/// The capital the first `n` allocations allot together.
pub open spec fn targets_sum(allocations: Seq<Allocation>, n: int) -> int
    decreases n,
{
    if n <= 0 {
        0
    } else {
        targets_sum(allocations, n - 1) + allocations[n - 1].target_capital_y
    }
}

/// The first `n` allocations each allot a pool at least two tokens of
/// capital and no more than a pool can hold, so that no reserve is raised to
/// the floor or cut at the ceiling.
pub open spec fn within_reserve_limits(allocations: Seq<Allocation>, n: int) -> bool {
    forall|i: int|
        0 <= i < n ==> SCALE <= (#[trigger] allocations[i]).target_capital_y / 2 <= u64::MAX
}

proof fn lemma_rebalanced_prefix(
    before: Seq<AmmState>,
    allocations: Seq<Allocation>,
    after: Seq<AmmState>,
    n: int,
)
    requires
        0 <= n <= after.len(),
        n <= allocations.len(),
        n <= before.len(),
        forall|i: int| 0 <= i < n ==> rebalanced(before[i], allocations[i], #[trigger] after[i]),
        within_reserve_limits(allocations, n),
    ensures
        targets_sum(allocations, n) - n <= 2 * reserve_y_sum(after, n) <= targets_sum(
            allocations,
            n,
        ),
    decreases n,
{
    if n > 0 {
        lemma_rebalanced_prefix(before, allocations, after, n - 1);
        assert(rebalanced(before[n - 1], allocations[n - 1], after[n - 1]));
        let t = allocations[n - 1].target_capital_y;
        assert(SCALE <= t / 2 <= u64::MAX);
        assert(after[n - 1].reserve_y == t / 2);
    }
}

/// Rebalancing conserves capital up to rounding: where no pool is held at
/// the floor or the ceiling, the pools together hold what was allotted, less
/// at most one unit per pool.
pub proof fn lemma_rebalance_conserves_capital(
    before: Seq<AmmState>,
    allocations: Seq<Allocation>,
    after: Seq<AmmState>,
)
    requires
        before.len() == allocations.len(),
        after.len() == allocations.len(),
        forall|i: int|
            0 <= i < after.len() ==> rebalanced(before[i], allocations[i], #[trigger] after[i]),
        within_reserve_limits(allocations, allocations.len() as int),
    ensures
        targets_sum(allocations, allocations.len() as int) - allocations.len() <= total_capital(
            after,
        ) <= targets_sum(allocations, allocations.len() as int),
{
    lemma_rebalanced_prefix(before, allocations, after, after.len() as int);
}

/// One pool's record of the epoch it is about to close. The edge and the
/// trade count are the pool's; its parts and its score are the caller's.
pub fn summarize_epoch(
    amm: &AmmState,
    epoch_number: u32,
    arb_losses_bits: u64,
    retail_gains_bits: u64,
    risk_adjusted_score_bits: u64,
) -> (summary: EpochSummary)
    ensures
        summary.epoch_number == epoch_number,
        summary.edge_bits == amm.epoch_edge_bits,
        summary.trade_count == amm.epoch_trade_count,
        summary.arb_losses_bits == arb_losses_bits,
        summary.retail_gains_bits == retail_gains_bits,
        summary.risk_adjusted_score_bits == risk_adjusted_score_bits,
{
    EpochSummary {
        epoch_number,
        edge_bits: amm.epoch_edge_bits,
        trade_count: amm.epoch_trade_count,
        arb_losses_bits,
        retail_gains_bits,
        risk_adjusted_score_bits,
    }
}

} // verus!
