//! Pool mechanics: the basis-point quote, the reserve update, and the
//! settlement of a routed order.

use crate::cpamm::{
    after_fee, effective_input, lemma_after_fee_bounds, lemma_quote_below_reserve,
    lemma_quote_with_fee_bounded, quote_effective, quote_with_fee,
};
use crate::types::AmmState;
use rand::Rng;
use rand_chacha::ChaCha8Rng;
use vstd::arithmetic::div_mod::{lemma_fundamental_div_mod, lemma_mod_bound};
use vstd::prelude::*;

verus! {

/// Basis points in the whole.
pub const BPS_DENOMINATOR: u32 = 10_000;

/// The quote of a pool that charges `fee_bps` basis points.
pub open spec fn cpamm_output_spec(
    input: u64,
    reserve_in: u64,
    reserve_out: u64,
    fee_bps: u32,
) -> nat {
    quote_with_fee(
        input as nat,
        reserve_in as nat,
        reserve_out as nat,
        (BPS_DENOMINATOR - fee_bps) as nat,
        BPS_DENOMINATOR as nat,
    )
}

/// Constant-product output under a basis-point fee: the fee is taken from the
/// input, rounded down, and the pool pays `reserve_out * e / (reserve_in + e)`
/// for the effective input `e`, rounded down. An empty order or an empty
/// side of the pool yields 0.
pub fn cpamm_output(input: u64, reserve_in: u64, reserve_out: u64, fee_bps: u32) -> (out: u64)
    requires
        fee_bps <= BPS_DENOMINATOR,
    ensures
        out == cpamm_output_spec(input, reserve_in, reserve_out, fee_bps),
        out <= reserve_out,
        reserve_out > 0 ==> out < reserve_out,
        input == 0 || reserve_in == 0 || reserve_out == 0 ==> out == 0,
{
    let keep: u64 = (BPS_DENOMINATOR - fee_bps) as u64;
    let input_eff = effective_input(input, keep, BPS_DENOMINATOR as u64);
    proof {
        lemma_quote_below_reserve(input_eff as nat, reserve_in as nat, reserve_out as nat);
    }
    quote_effective(input_eff, reserve_in, reserve_out)
}

/// `a + b`, held at the largest `u64`.
pub open spec fn saturating_sum(a: u64, b: u64) -> u64 {
    if a + b > u64::MAX {
        u64::MAX
    } else {
        (a + b) as u64
    }
}

/// `a - b`, held at zero.
pub open spec fn saturating_difference(a: u64, b: u64) -> u64 {
    if a < b {
        0
    } else {
        (a - b) as u64
    }
}

/// Applies a trade to a pool's reserves. A trade that buys X adds its input
/// to the Y reserve and takes its output from the X reserve; a trade that
/// sells X does the reverse. The sum saturates at the largest `u64` and the
/// difference at zero.
pub fn apply_cpamm_trade(
    reserve_x: &mut u64,
    reserve_y: &mut u64,
    is_buy: bool,
    input: u64,
    output: u64,
)
    ensures
        is_buy ==> *final(reserve_y) == saturating_sum(*old(reserve_y), input),
        is_buy ==> *final(reserve_x) == saturating_difference(*old(reserve_x), output),
        !is_buy ==> *final(reserve_x) == saturating_sum(*old(reserve_x), input),
        !is_buy ==> *final(reserve_y) == saturating_difference(*old(reserve_y), output),
{
    if is_buy {
        *reserve_y = reserve_y.saturating_add(input);
        *reserve_x = reserve_x.saturating_sub(output);
    } else {
        *reserve_x = reserve_x.saturating_add(input);
        *reserve_y = reserve_y.saturating_sub(output);
    }
}

/// A trade at a constant-product quote never empties a pool: where both
/// reserves hold at least one unit before, both do after.
pub proof fn lemma_quoted_trade_keeps_liquidity(
    reserve_in: u64,
    reserve_out: u64,
    input: u64,
    fee_bps: u32,
)
    requires
        fee_bps <= BPS_DENOMINATOR,
        reserve_in >= 1,
        reserve_out >= 1,
    ensures
        saturating_sum(reserve_in, input) >= 1,
        saturating_difference(
            reserve_out,
            cpamm_output_spec(input, reserve_in, reserve_out, fee_bps) as u64,
        ) >= 1,
{
    lemma_quote_with_fee_bounded(
        input as nat,
        reserve_in as nat,
        reserve_out as nat,
        (BPS_DENOMINATOR - fee_bps) as nat,
        BPS_DENOMINATOR as nat,
    );
}

/// A trade at a constant-product quote never lowers the product of the
/// reserves: the pool gives no more than the constant-product curve allows,
/// and the fee it keeps only adds to the product.
pub proof fn lemma_quoted_trade_keeps_product(
    reserve_in: u64,
    reserve_out: u64,
    input: u64,
    fee_bps: u32,
)
    requires
        fee_bps <= BPS_DENOMINATOR,
    ensures
        (reserve_in + input) * (reserve_out - cpamm_output_spec(
            input,
            reserve_in,
            reserve_out,
            fee_bps,
        )) >= reserve_in * reserve_out,
{
    let keep = (BPS_DENOMINATOR - fee_bps) as nat;
    let unit = BPS_DENOMINATOR as nat;
    let e = after_fee(input as nat, keep, unit) as int;
    let out = cpamm_output_spec(input, reserve_in, reserve_out, fee_bps) as int;
    let ri = reserve_in as int;
    let ro = reserve_out as int;
    let x = input as int;
    lemma_after_fee_bounds(input as nat, keep, unit);
    lemma_quote_with_fee_bounded(input as nat, reserve_in as nat, reserve_out as nat, keep, unit);
    assert(out * (ri + e) <= ro * e) by {
        if e != 0 && ri != 0 && ro != 0 {
            lemma_fundamental_div_mod(ro * e, ri + e);
            lemma_mod_bound(ro * e, ri + e);
            assert(out * (ri + e) == (ri + e) * out) by (nonlinear_arith);
        } else {
            assert(out == 0);
            assert(0 * (ri + e) == 0);
            assert(ro * e >= 0) by (nonlinear_arith)
                requires
                    ro >= 0,
                    e >= 0,
            ;
        }
    }
    assert((ri + x) * (ro - out) >= ri * ro) by (nonlinear_arith)
        requires
            out * (ri + e) <= ro * e,
            0 <= e <= x,
            0 <= out <= ro,
            0 <= ri,
    {
        assert((ri + e) * (ro - out) == ri * ro + (ro * e - out * (ri + e)));
        assert((ri + x) * (ro - out) >= (ri + e) * (ro - out));
    }
}

/// How one order was split across the pools.
#[derive(Clone, Debug)]
pub struct RoutingResult {
    /// For each pool, the scaled input it received and the scaled output it
    /// paid; both 0 for a pool that received nothing.
    pub allocations: Vec<(u64, u64)>,
    /// The outputs of all pools together, held at the largest `u64`.
    pub total_output: u64,
}

/// The sum of the outputs of the first `n` allocations.
pub open spec fn outputs_sum(allocations: Seq<(u64, u64)>, n: int) -> int
    decreases n,
{
    if n <= 0 {
        0
    } else {
        outputs_sum(allocations, n - 1) + allocations[n - 1].1
    }
}

/// `total`, held at the largest `u64`.
pub open spec fn held_at_max(total: int) -> u64 {
    if total > u64::MAX {
        u64::MAX
    } else {
        total as u64
    }
}

/// Settles a split that the router has decided. Pool `i` receives
/// `inputs[i]`; a pool that receives nothing is not asked for a quote and
/// pays nothing, every other pool pays what its strategy quotes for exactly
/// that input against its current reserves. Pools are settled in index order.
pub fn settle_allocations<F>(
    amms: &[AmmState],
    is_buy: bool,
    inputs: &[u64],
    compute_swap: F,
) -> (result: RoutingResult) where F: Fn(usize, bool, u64, u64, u64) -> u64
    requires
        inputs@.len() == amms@.len(),
        forall|i: int|
            0 <= i < amms@.len() && inputs@[i] != 0 ==> call_requires(
                compute_swap,
                (i as usize, is_buy, #[trigger] inputs@[i], amms@[i].reserve_x, amms@[i].reserve_y),
            ),
    ensures
        result.allocations@.len() == amms@.len(),
        forall|i: int|
            0 <= i < amms@.len() ==> (#[trigger] result.allocations@[i]).0 == inputs@[i],
        forall|i: int|
            0 <= i < amms@.len() && inputs@[i] == 0 ==> (#[trigger] result.allocations@[i]).1 == 0,
        forall|i: int|
            0 <= i < amms@.len() && inputs@[i] != 0 ==> call_ensures(
                compute_swap,
                (i as usize, is_buy, inputs@[i], amms@[i].reserve_x, amms@[i].reserve_y),
                (#[trigger] result.allocations@[i]).1,
            ),
        result.total_output == held_at_max(
            outputs_sum(result.allocations@, amms@.len() as int),
        ),
{
    let n = amms.len();
    let mut allocations: Vec<(u64, u64)> = Vec::new();
    let mut total_output: u64 = 0;
    let mut i: usize = 0;
    while i < n
        invariant
            i <= n,
            n == amms@.len(),
            inputs@.len() == amms@.len(),
            allocations@.len() == i,
            forall|k: int|
                0 <= k < amms@.len() && inputs@[k] != 0 ==> call_requires(
                    compute_swap,
                    (
                        k as usize,
                        is_buy,
                        #[trigger] inputs@[k],
                        amms@[k].reserve_x,
                        amms@[k].reserve_y,
                    ),
                ),
            forall|k: int| 0 <= k < i ==> (#[trigger] allocations@[k]).0 == inputs@[k],
            forall|k: int| 0 <= k < i && inputs@[k] == 0 ==> (#[trigger] allocations@[k]).1 == 0,
            forall|k: int|
                0 <= k < i && inputs@[k] != 0 ==> call_ensures(
                    compute_swap,
                    (k as usize, is_buy, inputs@[k], amms@[k].reserve_x, amms@[k].reserve_y),
                    (#[trigger] allocations@[k]).1,
                ),
            total_output == held_at_max(outputs_sum(allocations@, i as int)),
            outputs_sum(allocations@, i as int) >= 0,
        decreases n - i,
    {
        let input_scaled = inputs[i];
        let ghost before = allocations@;
        let out = if input_scaled == 0 {
            0
        } else {
            compute_swap(i, is_buy, input_scaled, amms[i].reserve_x, amms[i].reserve_y)
        };
        allocations.push((input_scaled, out));
        total_output = total_output.saturating_add(out);
        proof {
            lemma_outputs_sum_prefix(before, allocations@, i as int);
        }
        i = i + 1;
    }
    RoutingResult { allocations, total_output }
}

/// Routes an order where there is nothing to split: with no pool the result
/// is empty, and a single pool receives the whole order and is asked for its
/// quote. With two pools or more the split is the solver's to find, and the
/// answer is `None`.
pub fn route_without_split<F>(
    amms: &[AmmState],
    is_buy: bool,
    total_input_scaled: u64,
    compute_swap: F,
) -> (result: Option<RoutingResult>) where F: Fn(usize, bool, u64, u64, u64) -> u64
    requires
        amms@.len() == 1 ==> call_requires(
            compute_swap,
            (0usize, is_buy, total_input_scaled, amms@[0].reserve_x, amms@[0].reserve_y),
        ),
    ensures
        result is Some <==> amms@.len() <= 1,
        amms@.len() == 0 ==> (result matches Some(r) ==> r.allocations@.len() == 0
            && r.total_output == 0),
        amms@.len() == 1 ==> (result matches Some(r) ==> {
            &&& r.allocations@.len() == 1
            &&& r.allocations@[0].0 == total_input_scaled
            &&& r.allocations@[0].1 == r.total_output
            &&& call_ensures(
                compute_swap,
                (0usize, is_buy, total_input_scaled, amms@[0].reserve_x, amms@[0].reserve_y),
                r.total_output,
            )
        }),
{
    let n = amms.len();
    if n == 0 {
        Some(RoutingResult { allocations: Vec::new(), total_output: 0 })
    } else if n == 1 {
        let out = compute_swap(0, is_buy, total_input_scaled, amms[0].reserve_x, amms[0].reserve_y);
        let mut allocations: Vec<(u64, u64)> = Vec::new();
        allocations.push((total_input_scaled, out));
        Some(RoutingResult { allocations, total_output: out })
    } else {
        None
    }
}

/// The sum of a prefix does not depend on what follows it.
proof fn lemma_outputs_sum_prefix(a: Seq<(u64, u64)>, b: Seq<(u64, u64)>, n: int)
    requires
        0 <= n <= a.len(),
        n <= b.len(),
        forall|k: int| 0 <= k < n ==> a[k] == b[k],
    ensures
        outputs_sum(a, n) == outputs_sum(b, n),
        outputs_sum(a, n) >= 0,
    decreases n,
{
    if n > 0 {
        lemma_outputs_sum_prefix(a, b, n - 1);
    }
}

/// The seeded generator every draw of a simulation comes from.
#[verifier::external_type_specification]
#[verifier::external_body]
pub struct ExChaCha8Rng(rand_chacha::ChaCha8Rng);

/// The lowest fee, in basis points, the reference pool may be given.
pub const NORM_FEE_BPS_MIN: u32 = 30;

/// The highest fee, in basis points, the reference pool may be given.
pub const NORM_FEE_BPS_MAX: u32 = 80;

/// Draws from `low..=high` with `rand::Rng::gen_range`. The draw advances
/// the generator and lands in the range; which value it is depends on the
/// generator's state and is not stated. `gen_range` panics on an empty
/// range, so the range must hold a value.
#[verifier::external_body]
fn draw_inclusive(rng: &mut ChaCha8Rng, low: u32, high: u32) -> (r: u32)
    requires
        low <= high,
    ensures
        low <= r <= high,
{
    rng.gen_range(low..=high)
}

/// Draws the reference pool's fee, uniform over 30 to 80 basis points.
pub fn sample_norm_fee_bps(rng: &mut ChaCha8Rng) -> (fee_bps: u32)
    ensures
        NORM_FEE_BPS_MIN <= fee_bps <= NORM_FEE_BPS_MAX,
        fee_bps <= BPS_DENOMINATOR,
{
    draw_inclusive(rng, NORM_FEE_BPS_MIN, NORM_FEE_BPS_MAX)
}

} // verus!
