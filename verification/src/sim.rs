//! The simulation driver's decisions: whether a run can start, what happens
//! next and in which order, where a step falls in the epoch schedule, and
//! what a strategy is told after a trade.

use crate::storage::STORAGE_SIZE;
use crate::types::{
    AfterSwapPayload, AmmState, EpochBoundaryPayload, MAX_STRATEGIES, PEER_SLOTS, TAG_AFTER_SWAP,
    TAG_EPOCH_BOUNDARY, UNUSED_SPOT_BITS, ZERO_BITS,
};
use vstd::arithmetic::div_mod::{
    lemma_div_nonincreasing, lemma_fundamental_div_mod, lemma_fundamental_div_mod_converse,
    lemma_mod_bound, lemma_mod_decreases,
};
use vstd::prelude::*;

verus! {

/// Capital is reallocated after step `step`: the step closes an epoch and is
/// not the last of the run.
pub open spec fn epoch_ends_at(step: int, total_steps: int, epoch_len: int) -> bool {
    (step + 1) % epoch_len == 0 && step != total_steps - 1
}

/// Whether capital is reallocated after step `step` of a run of
/// `total_steps` steps with epochs of `epoch_len` steps.
pub fn is_epoch_boundary(step: usize, total_steps: usize, epoch_len: usize) -> (b: bool)
    requires
        step < total_steps,
        0 < epoch_len,
    ensures
        b == epoch_ends_at(step as int, total_steps as int, epoch_len as int),
{
    (step + 1) % epoch_len == 0 && step != total_steps - 1
}

/// The position of step `step` within its epoch.
pub fn epoch_step(step: usize, epoch_len: usize) -> (r: u32)
    requires
        0 < epoch_len,
        step <= u32::MAX,
    ensures
        r == step % epoch_len,
{
    proof {
        lemma_mod_decreases(step as nat, epoch_len as nat);
    }
    (step % epoch_len) as u32
}

/// The epoch that step `step` belongs to.
pub fn epoch_number(step: usize, epoch_len: usize) -> (r: u32)
    requires
        0 < epoch_len,
        step <= u32::MAX,
    ensures
        r == step / epoch_len,
{
    proof {
        lemma_div_nonincreasing(step as int, epoch_len as int);
    }
    (step / epoch_len) as u32
}

/// The epoch that ends with step `step`, for a step that closes one.
pub fn finished_epoch(step: usize, epoch_len: usize) -> (r: u32)
    requires
        0 < epoch_len,
        step < u32::MAX,
        (step + 1) % (epoch_len as int) == 0,
    ensures
        r == (step + 1) / (epoch_len as int) - 1,
{
    proof {
        lemma_closing_step(step as int, epoch_len as int);
    }
    ((step + 1) / epoch_len - 1) as u32
}

/// A step that closes an epoch is the last step of the epoch it belongs to:
/// the epoch reported at the boundary is the one its trades were tagged
/// with, and the step sits at position `epoch_len - 1`.
pub proof fn lemma_closing_step(step: int, epoch_len: int)
    requires
        0 <= step,
        0 < epoch_len,
        (step + 1) % epoch_len == 0,
    ensures
        (step + 1) / epoch_len - 1 == step / epoch_len,
        (step + 1) / epoch_len >= 1,
        step % epoch_len == epoch_len - 1,
{
    let q = (step + 1) / epoch_len;
    lemma_fundamental_div_mod(step + 1, epoch_len);
    assert(step + 1 == epoch_len * q);
    assert(q >= 1) by (nonlinear_arith)
        requires
            step + 1 == epoch_len * q,
            step >= 0,
            epoch_len > 0,
    ;
    assert(step == epoch_len * (q - 1) + (epoch_len - 1)) by (nonlinear_arith)
        requires
            step + 1 == epoch_len * q,
    ;
    lemma_fundamental_div_mod_converse(
        step,
        epoch_len,
        q - 1,
        epoch_len - 1,
    );
}

/// The number of reallocations among the first `n` steps.
pub open spec fn boundaries_before(n: int, total_steps: int, epoch_len: int) -> int
    decreases n,
{
    if n <= 0 {
        0
    } else {
        boundaries_before(n - 1, total_steps, epoch_len) + if epoch_ends_at(
            n - 1,
            total_steps,
            epoch_len,
        ) {
            1int
        } else {
            0int
        }
    }
}

/// Before the last step, there is one reallocation per completed epoch.
proof fn lemma_boundaries_count(n: int, total_steps: int, epoch_len: int)
    requires
        0 <= n < total_steps,
        0 < epoch_len,
    ensures
        boundaries_before(n, total_steps, epoch_len) == n / epoch_len,
    decreases n,
{
    if n > 0 {
        lemma_boundaries_count(n - 1, total_steps, epoch_len);
        let q = (n - 1) / epoch_len;
        let r = (n - 1) % epoch_len;
        lemma_fundamental_div_mod(n - 1, epoch_len);
        lemma_mod_bound(n - 1, epoch_len);
        if n % epoch_len == 0 {
            lemma_fundamental_div_mod(n, epoch_len);
            lemma_closing_step(n - 1, epoch_len);
        } else {
            // n - 1 = len * q + r with r + 1 < len, or n would be a multiple
            if r + 1 == epoch_len {
                assert(n == epoch_len * (q + 1)) by (nonlinear_arith)
                    requires
                        n - 1 == epoch_len * q + r,
                        r + 1 == epoch_len,
                ;
                lemma_fundamental_div_mod_converse(
                    n,
                    epoch_len,
                    q + 1,
                    0,
                );
            }
            lemma_fundamental_div_mod_converse(
                n,
                epoch_len,
                q,
                r + 1,
            );
        }
    } else {
        assert(0int / epoch_len == 0) by (nonlinear_arith)
            requires
                epoch_len > 0,
        ;
    }
}

/// The last step never reallocates capital, so a run of `total_steps` steps
/// reallocates once per epoch that ends before the last step:
/// `(total_steps - 1) / epoch_len` times.
pub proof fn lemma_reallocations_in_run(total_steps: int, epoch_len: int)
    requires
        0 < total_steps,
        0 < epoch_len,
    ensures
        !epoch_ends_at(total_steps - 1, total_steps, epoch_len),
        boundaries_before(total_steps, total_steps, epoch_len) == (total_steps - 1) / epoch_len,
{
    lemma_boundaries_count(total_steps - 1, total_steps, epoch_len);
}

/// The positions, in ascending order, of the pools among the first `n` that
/// are peers of the pool with index `own`.
pub open spec fn peers_before(pools: Seq<AmmState>, own: u8, n: int) -> Seq<int>
    decreases n,
{
    if n <= 0 {
        Seq::empty()
    } else if pools[n - 1].strategy_index != own {
        peers_before(pools, own, n - 1).push(n - 1)
    } else {
        peers_before(pools, own, n - 1)
    }
}

/// Of `count` peers, how many are shown: all of them while a slot is left
/// for the reference pool, else the first seven.
pub open spec fn shown_peers(count: int) -> int {
    if count < PEER_SLOTS - 1 {
        count
    } else {
        PEER_SLOTS - 1
    }
}

/// The eight peer-price slots a pool is shown: the shown peers in index
/// order, then the reference pool, then unused slots.
pub open spec fn competing_slots(
    pools: Seq<AmmState>,
    own: u8,
    spot_bits: Seq<u32>,
    norm_spot_bits: u32,
) -> Seq<u32> {
    let peers = peers_before(pools, own, pools.len() as int);
    let shown = shown_peers(peers.len() as int);
    Seq::new(
        PEER_SLOTS as nat,
        |j: int|
            if j < shown {
                spot_bits[peers[j]]
            } else if j == shown {
                norm_spot_bits
            } else {
                UNUSED_SPOT_BITS
            },
    )
}

/// The reference pool is always shown, right after the last peer shown, and
/// every slot after it is unused.
pub proof fn lemma_normalizer_always_shown(
    pools: Seq<AmmState>,
    own: u8,
    spot_bits: Seq<u32>,
    norm_spot_bits: u32,
)
    ensures
        ({
            let slots = competing_slots(pools, own, spot_bits, norm_spot_bits);
            let at = shown_peers(peers_before(pools, own, pools.len() as int).len() as int);
            &&& slots.len() == PEER_SLOTS
            &&& 0 <= at < PEER_SLOTS
            &&& slots[at] == norm_spot_bits
            &&& forall|j: int| at < j < PEER_SLOTS ==> slots[j] == UNUSED_SPOT_BITS
        }),
{
}

/// Lays out the peer prices for the pool with index `own_index`.
/// `spot_bits[i]` is the spot price of `all_strat[i]`. The slots hold the
/// first peers in index order, at most seven of them; the reference pool's
/// price follows the last peer shown; what is left is marked unused.
pub fn competing_spot_prices(
    all_strat: &[AmmState],
    own_index: u8,
    spot_bits: &[u32],
    norm_spot_bits: u32,
) -> (slots: [u32; PEER_SLOTS])
    requires
        spot_bits@.len() == all_strat@.len(),
    ensures
        slots@ == competing_slots(all_strat@, own_index, spot_bits@, norm_spot_bits),
{
    let mut competing: [u32; PEER_SLOTS] = [UNUSED_SPOT_BITS; PEER_SLOTS];
    let mut slot: usize = 0;
    let n = all_strat.len();
    let mut i: usize = 0;
    while i < n
        invariant
            i <= n,
            n == all_strat@.len(),
            spot_bits@.len() == all_strat@.len(),
            slot == shown_peers(peers_before(all_strat@, own_index, i as int).len() as int),
            forall|k: int|
                0 <= k < peers_before(all_strat@, own_index, i as int).len() ==> 0 <= (
                #[trigger] peers_before(all_strat@, own_index, i as int)[k]) < i,
            forall|j: int|
                0 <= j < slot ==> #[trigger] competing@[j] == spot_bits@[peers_before(
                    all_strat@,
                    own_index,
                    i as int,
                )[j]],
            forall|j: int| slot <= j < PEER_SLOTS ==> #[trigger] competing@[j] == UNUSED_SPOT_BITS,
        decreases n - i,
    {
        if all_strat[i].strategy_index != own_index && slot < PEER_SLOTS - 1 {
            competing[slot] = spot_bits[i];
            slot = slot + 1;
        }
        i = i + 1;
    }
    competing[slot] = norm_spot_bits;
    assert(competing@ =~= competing_slots(all_strat@, own_index, spot_bits@, norm_spot_bits));
    competing
}

/// The one-byte code of a trade's direction: 0 for buying X, 1 for selling.
pub open spec fn side_code(is_buy: bool) -> u8 {
    if is_buy {
        0
    } else {
        1
    }
}

/// Assembles what the strategy of `amm` is told about a trade that has just
/// been applied to it: the trade, the pool's reserves after it, the place
/// in the schedule, and the competitive context.
pub fn build_after_swap_payload(
    amm: &AmmState,
    is_buy: bool,
    input: u64,
    output: u64,
    sim_step: u64,
    epoch_step: u32,
    epoch_number: u32,
    flow_captured_bits: u32,
    capital_weight_bits: u32,
    competing: [u32; PEER_SLOTS],
    total_n: usize,
) -> (p: AfterSwapPayload)
    requires
        total_n <= u8::MAX,
    ensures
        p.tag == TAG_AFTER_SWAP,
        p.side == side_code(is_buy),
        p.input_amount == input,
        p.output_amount == output,
        p.reserve_x == amm.reserve_x,
        p.reserve_y == amm.reserve_y,
        p.sim_step == sim_step,
        p.epoch_step == epoch_step,
        p.epoch_number == epoch_number,
        p.n_strategies == total_n,
        p.strategy_index == amm.strategy_index,
        p.flow_captured_bits == flow_captured_bits,
        p.capital_weight_bits == capital_weight_bits,
        p.competing_spot_price_bits == competing,
        p.storage == amm.storage,
{
    AfterSwapPayload {
        tag: TAG_AFTER_SWAP,
        side: if is_buy {
            0
        } else {
            1
        },
        input_amount: input,
        output_amount: output,
        reserve_x: amm.reserve_x,
        reserve_y: amm.reserve_y,
        sim_step,
        epoch_step,
        epoch_number,
        n_strategies: total_n as u8,
        strategy_index: amm.strategy_index,
        flow_captured_bits,
        capital_weight_bits,
        competing_spot_price_bits: competing,
        storage: amm.storage,
    }
}

/// Assembles what the strategy of `amm` is told when an epoch has ended and
/// `amm` holds its new reserves.
pub fn build_epoch_boundary_payload(
    amm: &AmmState,
    epoch_number: u32,
    epoch_edge_bits: u64,
    capital_weight_bits: u32,
) -> (p: EpochBoundaryPayload)
    ensures
        p.tag == TAG_EPOCH_BOUNDARY,
        p.epoch_number == epoch_number,
        p.new_reserve_x == amm.reserve_x,
        p.new_reserve_y == amm.reserve_y,
        p.epoch_edge_bits == epoch_edge_bits,
        p.cumulative_edge_bits == amm.cumulative_edge_bits,
        p.capital_weight_bits == capital_weight_bits,
        p.storage == amm.storage,
{
    EpochBoundaryPayload {
        tag: TAG_EPOCH_BOUNDARY,
        epoch_number,
        new_reserve_x: amm.reserve_x,
        new_reserve_y: amm.reserve_y,
        epoch_edge_bits,
        cumulative_edge_bits: amm.cumulative_edge_bits,
        capital_weight_bits,
        storage: amm.storage,
    }
}

/// Why a run cannot start.
#[derive(Clone, Copy, Debug, PartialEq, Eq, Structural)]
pub enum ConfigError {
    /// The epoch length is zero.
    EmptyEpoch,
    /// More strategies than the engine hosts.
    TooManyStrategies,
    /// More steps than the step counter of a notification can hold.
    TooManySteps,
}

impl ConfigError {
    /// A sentence for the user.
    pub fn message(&self) -> (text: &'static str)
        ensures
            *self == ConfigError::EmptyEpoch ==> text@ == "an epoch must have at least one step"@,
            *self == ConfigError::TooManyStrategies ==> text@
                == "at most 16 strategies can compete"@,
            *self == ConfigError::TooManySteps ==> text@
                == "at most 4294967295 steps can be run"@,
    {
        match self {
            ConfigError::EmptyEpoch => "an epoch must have at least one step",
            ConfigError::TooManyStrategies => "at most 16 strategies can compete",
            ConfigError::TooManySteps => "at most 4294967295 steps can be run",
        }
    }
}

/// The counts of a run are ones the engine can work with: epochs are not
/// empty, the strategies are no more than the engine hosts, and every step
/// index fits the four bytes it has on the wire.
pub open spec fn runnable(total_steps: usize, epoch_len: usize, n_strategies: usize) -> bool {
    &&& 0 < epoch_len
    &&& n_strategies <= MAX_STRATEGIES
    &&& total_steps <= u32::MAX
}

/// Checks the counts of a run before anything is simulated. Of several
/// faults the first in the order empty epoch, strategies, steps is reported.
pub fn check_run(total_steps: usize, epoch_len: usize, n_strategies: usize) -> (r: Result<
    (),
    ConfigError,
>)
    ensures
        r is Ok <==> runnable(total_steps, epoch_len, n_strategies),
        r == Err::<(), ConfigError>(ConfigError::EmptyEpoch) <==> epoch_len == 0,
        r == Err::<(), ConfigError>(ConfigError::TooManyStrategies) <==> epoch_len != 0
            && n_strategies > MAX_STRATEGIES,
        r == Err::<(), ConfigError>(ConfigError::TooManySteps) <==> epoch_len != 0 && n_strategies
            <= MAX_STRATEGIES && total_steps > u32::MAX,
{
    if epoch_len == 0 {
        Err(ConfigError::EmptyEpoch)
    } else if n_strategies > MAX_STRATEGIES {
        Err(ConfigError::TooManyStrategies)
    } else if total_steps > u32::MAX as usize {
        Err(ConfigError::TooManySteps)
    } else {
        Ok(())
    }
}

/// The strategy pools a run starts with: one per name, in order, each with
/// the base reserves, its position as index, the given share of capital,
/// zeroed storage, no edge and no trades.
pub fn initial_pools(
    names: &[String],
    base_reserve_x: u64,
    base_reserve_y: u64,
    capital_weight_bits: u64,
) -> (pools: Vec<AmmState>)
    requires
        names@.len() <= MAX_STRATEGIES,
    ensures
        pools@.len() == names@.len(),
        forall|i: int|
            0 <= i < pools@.len() ==> {
                &&& (#[trigger] pools@[i]).reserve_x == base_reserve_x
                &&& pools@[i].reserve_y == base_reserve_y
                &&& pools@[i].strategy_index == i
                &&& pools@[i].name@ == names@[i]@
                &&& pools@[i].capital_weight_bits == capital_weight_bits
                &&& pools@[i].cumulative_edge_bits == ZERO_BITS
                &&& pools@[i].epoch_edge_bits == ZERO_BITS
                &&& pools@[i].epoch_trade_count == 0
                &&& forall|k: int| 0 <= k < STORAGE_SIZE ==> pools@[i].storage@[k] == 0
            },
{
    let n = names.len();
    let mut pools: Vec<AmmState> = Vec::new();
    let mut i: usize = 0;
    while i < n
        invariant
            i <= n,
            n == names@.len(),
            n <= MAX_STRATEGIES,
            pools@.len() == i,
            forall|j: int|
                0 <= j < i ==> {
                    &&& (#[trigger] pools@[j]).reserve_x == base_reserve_x
                    &&& pools@[j].reserve_y == base_reserve_y
                    &&& pools@[j].strategy_index == j
                    &&& pools@[j].name@ == names@[j]@
                    &&& pools@[j].capital_weight_bits == capital_weight_bits
                    &&& pools@[j].cumulative_edge_bits == ZERO_BITS
                    &&& pools@[j].epoch_edge_bits == ZERO_BITS
                    &&& pools@[j].epoch_trade_count == 0
                    &&& forall|k: int| 0 <= k < STORAGE_SIZE ==> pools@[j].storage@[k] == 0
                },
        decreases n - i,
    {
        let mut pool = AmmState::new(base_reserve_x, base_reserve_y, i as u8, names[i].as_str());
        pool.capital_weight_bits = capital_weight_bits;
        pools.push(pool);
        i = i + 1;
    }
    pools
}

/// One unit of work of the simulation driver.
#[derive(Clone, Copy, Debug, PartialEq, Eq, Structural)]
pub enum Action {
    /// Move the fair price by one step of its walk.
    AdvancePrice,
    /// Let the arbitrageur trade against the strategy pool with this index.
    Arbitrage(usize),
    /// Let the arbitrageur trade against the reference pool.
    ArbitrageNormalizer,
    /// Generate the step's retail orders and route each across all pools.
    RouteRetail,
    /// Reallocate capital; the epoch with this index has just ended.
    Rebalance(usize),
    /// The run is over.
    Finish,
}

/// An action and the step it belongs to.
#[derive(Clone, Copy, Debug, PartialEq, Eq, Structural)]
pub struct Scheduled {
    pub step: usize,
    pub action: Action,
}

/// The driver's place in a run: which step it is in, and how far into it.
///
/// Within a step the order is fixed: the price moves, the strategy pools are
/// arbitraged in index order, then the reference pool, then retail flow is
/// routed, and last, after a step that closes an epoch other than the final
/// one, capital is reallocated.
#[derive(Clone, Copy, Debug)]
pub struct Driver {
    pub total_steps: usize,
    pub epoch_len: usize,
    pub n_strategies: usize,
    /// The step in progress; `total_steps` once the run is over.
    pub step: usize,
    /// Actions of the step already handed out.
    pub done_in_step: usize,
}

impl Driver {
    /// The place is one a run passes through.
    pub open spec fn well_formed(&self) -> bool {
        &&& 0 < self.epoch_len
        &&& self.n_strategies + 3 <= usize::MAX
        &&& self.step <= self.total_steps
        &&& self.done_in_step <= self.n_strategies + 3
        &&& self.step == self.total_steps ==> self.done_in_step == 0
        &&& self.done_in_step == self.n_strategies + 3 ==> epoch_ends_at(
            self.step as int,
            self.total_steps as int,
            self.epoch_len as int,
        )
    }

    /// The action that is due.
    pub open spec fn pending(&self) -> Action {
        if self.step >= self.total_steps {
            Action::Finish
        } else if self.done_in_step == 0 {
            Action::AdvancePrice
        } else if self.done_in_step <= self.n_strategies {
            Action::Arbitrage((self.done_in_step - 1) as usize)
        } else if self.done_in_step == self.n_strategies + 1 {
            Action::ArbitrageNormalizer
        } else if self.done_in_step == self.n_strategies + 2 {
            Action::RouteRetail
        } else {
            Action::Rebalance(self.step / self.epoch_len)
        }
    }

    /// The step is complete once retail flow is routed, unless it closes an
    /// epoch and capital is still to be reallocated.
    pub open spec fn step_complete_after_pending(&self) -> bool {
        ||| self.done_in_step == self.n_strategies + 3
        ||| self.done_in_step == self.n_strategies + 2 && !epoch_ends_at(
            self.step as int,
            self.total_steps as int,
            self.epoch_len as int,
        )
    }

    /// The place after the pending action.
    pub open spec fn successor(&self) -> Driver {
        if self.step >= self.total_steps {
            *self
        } else if self.step_complete_after_pending() {
            Driver { step: (self.step + 1) as usize, done_in_step: 0, ..*self }
        } else {
            Driver { done_in_step: (self.done_in_step + 1) as usize, ..*self }
        }
    }

    /// Actions still to be handed out, the final `Finish` not counted, if
    /// every remaining step closed an epoch.
    pub open spec fn budget(&self) -> int {
        (self.total_steps - self.step) * (self.n_strategies + 4) - self.done_in_step
    }

    /// The start of a run of `total_steps` steps with epochs of `epoch_len`
    /// steps and `n_strategies` strategy pools.
    pub fn new(total_steps: usize, epoch_len: usize, n_strategies: usize) -> (driver: Driver)
        requires
            0 < epoch_len,
            n_strategies + 3 <= usize::MAX,
        ensures
            driver.well_formed(),
            driver.total_steps == total_steps,
            driver.epoch_len == epoch_len,
            driver.n_strategies == n_strategies,
            driver.step == 0,
            driver.done_in_step == 0,
    {
        Driver { total_steps, epoch_len, n_strategies, step: 0, done_in_step: 0 }
    }

    /// Hands out the pending action with its step and moves on. Once the run
    /// is over, every call hands out `Finish`.
    pub fn next(&mut self) -> (scheduled: Scheduled)
        requires
            old(self).well_formed(),
        ensures
            scheduled.action == old(self).pending(),
            scheduled.step == old(self).step,
            *final(self) == old(self).successor(),
            final(self).well_formed(),
            scheduled.action != Action::Finish ==> 0 <= final(self).budget() < old(self).budget(),
    {
        let step = self.step;
        if step >= self.total_steps {
            return Scheduled { step, action: Action::Finish };
        }
        let n = self.n_strategies;
        let done = self.done_in_step;
        let action = if done == 0 {
            Action::AdvancePrice
        } else if done <= n {
            Action::Arbitrage(done - 1)
        } else if done == n + 1 {
            Action::ArbitrageNormalizer
        } else if done == n + 2 {
            Action::RouteRetail
        } else {
            Action::Rebalance(step / self.epoch_len)
        };
        let complete = done == n + 3 || (done == n + 2 && !is_epoch_boundary(
            step,
            self.total_steps,
            self.epoch_len,
        ));
        proof {
            let left = self.total_steps - step;
            assert(left * (n + 4) == (left - 1) * (n + 4) + (n + 4)) by (nonlinear_arith);
            assert((left - 1) * (n + 4) >= 0) by (nonlinear_arith)
                requires
                    left >= 1,
                    n >= 0,
            ;
        }
        if complete {
            self.step = step + 1;
            self.done_in_step = 0;
        } else {
            self.done_in_step = done + 1;
        }
        Scheduled { step, action }
    }
}

} // verus!
