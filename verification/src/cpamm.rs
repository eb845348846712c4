//! The constant-product pricing rule, as mathematics.
//!
//! A pool holding `reserve_in` of the token it receives and `reserve_out` of
//! the token it pays quotes `reserve_out * e / (reserve_in + e)` for an
//! effective input `e`, rounded down. The effective input is what is left of
//! the trader's input once the fee is taken, also rounded down.

use vstd::arithmetic::div_mod::{
    lemma_div_is_ordered, lemma_div_multiples_vanish, lemma_fundamental_div_mod, lemma_mod_bound,
};
use vstd::prelude::*;

verus! {

/// What is left of `input` after a fee that keeps `keep` parts in `unit`.
pub open spec fn after_fee(input: nat, keep: nat, unit: nat) -> nat {
    input * keep / unit
}

/// The pool's output for an effective input. A pool with an empty side, or
/// an empty order, quotes nothing.
pub open spec fn cpamm_quote(input_eff: nat, reserve_in: nat, reserve_out: nat) -> nat {
    if input_eff == 0 || reserve_in == 0 || reserve_out == 0 {
        0
    } else {
        reserve_out * input_eff / (reserve_in + input_eff)
    }
}

/// The quote for an order of `input` under a fee that keeps `keep` parts in
/// `unit`.
pub open spec fn quote_with_fee(
    input: nat,
    reserve_in: nat,
    reserve_out: nat,
    keep: nat,
    unit: nat,
) -> nat {
    cpamm_quote(after_fee(input, keep, unit), reserve_in, reserve_out)
}

/// The effective input is the exact share of the input, rounded down, and
/// never more than the input.
pub proof fn lemma_after_fee_bounds(input: nat, keep: nat, unit: nat)
    by (nonlinear_arith)
    requires
        0 < unit,
        keep <= unit,
    ensures
        after_fee(input, keep, unit) <= input,
        after_fee(input, keep, unit) * unit <= input * keep,
        input * keep < (after_fee(input, keep, unit) + 1) * unit,
{
}

/// A larger input leaves a larger effective input.
pub proof fn lemma_after_fee_monotone(a: nat, b: nat, keep: nat, unit: nat)
    requires
        0 < unit,
        a <= b,
    ensures
        after_fee(a, keep, unit) <= after_fee(b, keep, unit),
{
    assert(a * keep <= b * keep) by (nonlinear_arith)
        requires
            a <= b,
    ;
    lemma_div_is_ordered((a * keep) as int, (b * keep) as int, unit as int);
}

/// The quote never exceeds the reserve it is paid from, and stays strictly
/// below it: no order empties a pool.
pub proof fn lemma_quote_below_reserve(input_eff: nat, reserve_in: nat, reserve_out: nat)
    ensures
        cpamm_quote(input_eff, reserve_in, reserve_out) <= reserve_out,
        reserve_out > 0 ==> cpamm_quote(input_eff, reserve_in, reserve_out) < reserve_out,
{
    if input_eff != 0 && reserve_in != 0 && reserve_out != 0 {
        let d = (reserve_in + input_eff) as int;
        let n = (reserve_out * input_eff) as int;
        assert(n < reserve_out * d) by (nonlinear_arith)
            requires
                n == reserve_out * input_eff,
                d == reserve_in + input_eff,
                reserve_in > 0,
                reserve_out > 0,
        ;
        assert(n / d < reserve_out) by (nonlinear_arith)
            requires
                0 <= n < reserve_out * d,
                0 < d,
        ;
    }
}

/// A larger effective input is never quoted less.
pub proof fn lemma_quote_monotone(e1: nat, e2: nat, reserve_in: nat, reserve_out: nat)
    requires
        e1 <= e2,
    ensures
        cpamm_quote(e1, reserve_in, reserve_out) <= cpamm_quote(e2, reserve_in, reserve_out),
{
    if e1 != 0 && reserve_in != 0 && reserve_out != 0 {
        let d1 = (reserve_in + e1) as int;
        let d2 = (reserve_in + e2) as int;
        let n1 = (reserve_out * e1) as int;
        let n2 = (reserve_out * e2) as int;
        let q1 = n1 / d1;
        lemma_fundamental_div_mod(n1, d1);
        lemma_mod_bound(n1, d1);
        assert(q1 * d1 <= n1) by (nonlinear_arith)
            requires
                n1 == d1 * q1 + n1 % d1,
                0 <= n1 % d1,
        ;
        // n1 / d1 <= n2 / d2 as fractions, cleared of denominators
        assert(n1 * d2 <= n2 * d1) by (nonlinear_arith)
            requires
                n1 == reserve_out * e1,
                n2 == reserve_out * e2,
                d1 == reserve_in + e1,
                d2 == reserve_in + e2,
                e1 <= e2,
        ;
        assert(q1 * d2 <= n2) by (nonlinear_arith)
            requires
                q1 * d1 <= n1,
                n1 * d2 <= n2 * d1,
                0 < d1,
                0 < d2,
                0 <= q1,
        {
            assert(q1 * d1 * d2 <= n1 * d2);
            assert((q1 * d2) * d1 <= n2 * d1);
        }
        lemma_div_is_ordered(q1 * d2, n2, d2);
        lemma_div_multiples_vanish(q1, d2);
        assert(q1 * d2 == d2 * q1) by (nonlinear_arith);
    }
}

/// With `d1 = d - h` and `d3 = d + h`, the cross-multiplied form of
/// `x1 / d1 + x3 / d3 <= 2 * x2 / d`, where each `x` is `ro * (d_ - ri)`.
proof fn lemma_cleared_concavity(ri: int, ro: int, d: int, h: int)
    requires
        0 <= ri,
        0 <= ro,
        0 <= h < d,
    ensures
        (ro * (d - h - ri)) * (d * (d + h)) + (ro * (d + h - ri)) * ((d - h) * d) <= 2 * (ro * (d
            - ri)) * ((d - h) * (d + h)),
{
    let d1 = d - h;
    let d3 = d + h;
    let x = d1 * d3;
    let t1 = (d1 - ri) * d3;
    let t3 = (d3 - ri) * d1;
    assert(x == d * d - h * h) by (nonlinear_arith)
        requires
            x == (d - h) * (d + h),
    ;
    assert(t1 + t3 == 2 * x - 2 * (ri * d)) by (nonlinear_arith)
        requires
            t1 == (d1 - ri) * d3,
            t3 == (d3 - ri) * d1,
            x == d1 * d3,
            d1 + d3 == 2 * d,
    ;
    assert(ri * x <= ri * (d * d)) by (nonlinear_arith)
        requires
            x == d * d - h * h,
            0 <= ri,
    ;
    let lhs = d * (t1 + t3);
    let rhs = 2 * ((d - ri) * x);
    assert(lhs == 2 * (d * x) - 2 * (ri * (d * d))) by (nonlinear_arith)
        requires
            lhs == d * (t1 + t3),
            t1 + t3 == 2 * x - 2 * (ri * d),
    ;
    assert(rhs == 2 * (d * x) - 2 * (ri * x)) by (nonlinear_arith)
        requires
            rhs == 2 * ((d - ri) * x),
    ;
    assert(lhs <= rhs);
    assert(ro * lhs <= ro * rhs) by (nonlinear_arith)
        requires
            lhs <= rhs,
            0 <= ro,
    ;
    assert((ro * (d1 - ri)) * (d * d3) == ro * (d * t1)) by (nonlinear_arith)
        requires
            t1 == (d1 - ri) * d3,
    ;
    assert((ro * (d3 - ri)) * (d1 * d) == ro * (d * t3)) by (nonlinear_arith)
        requires
            t3 == (d3 - ri) * d1,
    ;
    assert(ro * (d * t1) + ro * (d * t3) == ro * lhs) by (nonlinear_arith)
        requires
            lhs == d * (t1 + t3),
    ;
    assert(2 * (ro * (d - ri)) * x == ro * rhs) by (nonlinear_arith)
        requires
            rhs == 2 * ((d - ri) * x),
    ;
}

/// The heart of concavity: around any midpoint `e`, the two outer quotes sum
/// to at most twice the middle one plus one unit of rounding, and to at most
/// twice the middle one where the middle division leaves no remainder.
pub proof fn lemma_quote_midpoint(e: nat, h: nat, reserve_in: nat, reserve_out: nat)
    requires
        h <= e,
    ensures
        cpamm_quote((e - h) as nat, reserve_in, reserve_out) + cpamm_quote(
            e + h,
            reserve_in,
            reserve_out,
        ) <= 2 * cpamm_quote(e, reserve_in, reserve_out) + 1,
        (reserve_out * e) % (reserve_in + e) == 0 ==> cpamm_quote(
            (e - h) as nat,
            reserve_in,
            reserve_out,
        ) + cpamm_quote(e + h, reserve_in, reserve_out) <= 2 * cpamm_quote(
            e,
            reserve_in,
            reserve_out,
        ),
{
    if reserve_in != 0 && reserve_out != 0 {
        let ri = reserve_in as int;
        let ro = reserve_out as int;
        let d2 = ri + e;
        let d1 = d2 - h;
        let d3 = d2 + h;
        let n1 = ro * (e - h);
        let n2 = ro * e;
        let n3 = ro * (e + h);
        let q1 = n1 / d1;
        let q2 = n2 / d2;
        let q3 = n3 / d3;
        assert(ro * 0 == 0);
        assert(q1 == cpamm_quote((e - h) as nat, reserve_in, reserve_out));
        assert(q2 == cpamm_quote(e, reserve_in, reserve_out));
        assert(q3 == cpamm_quote(e + h, reserve_in, reserve_out));
        lemma_fundamental_div_mod(n1, d1);
        lemma_fundamental_div_mod(n2, d2);
        lemma_fundamental_div_mod(n3, d3);
        lemma_mod_bound(n1, d1);
        lemma_mod_bound(n2, d2);
        lemma_mod_bound(n3, d3);
        let r2 = n2 % d2;
        let a = d2 * d3;
        let b = d1 * d2;
        let c = d1 * d3;
        let p = d1 * d2 * d3;
        assert(0 < a && 0 < b && 0 < c && 0 < p) by (nonlinear_arith)
            requires
                0 < d1,
                0 < d2,
                0 < d3,
                a == d2 * d3,
                b == d1 * d2,
                c == d1 * d3,
                p == d1 * d2 * d3,
        ;
        assert(q1 * p <= n1 * a) by (nonlinear_arith)
            requires
                n1 == d1 * q1 + n1 % d1,
                0 <= n1 % d1,
                a == d2 * d3,
                p == d1 * d2 * d3,
                0 < a,
        {
            assert((d1 * q1) * a <= n1 * a);
        }
        assert(q3 * p <= n3 * b) by (nonlinear_arith)
            requires
                n3 == d3 * q3 + n3 % d3,
                0 <= n3 % d3,
                b == d1 * d2,
                p == d1 * d2 * d3,
                0 < b,
        {
            assert((d3 * q3) * b <= n3 * b);
        }
        // concavity of x / (r + x), cleared of denominators
        lemma_cleared_concavity(ri, ro, d2, h as int);
        assert(n1 * a + n3 * b <= 2 * n2 * c);
        assert(2 * n2 * c == 2 * q2 * p + 2 * r2 * c) by (nonlinear_arith)
            requires
                n2 == d2 * q2 + r2,
                c == d1 * d3,
                p == d1 * d2 * d3,
        ;
        assert(2 * r2 * c < 2 * p) by (nonlinear_arith)
            requires
                0 <= r2 < d2,
                c == d1 * d3,
                p == d1 * d2 * d3,
                0 < c,
        {
            assert(r2 * c < d2 * c);
        }
        assert((q1 + q3) * p == q1 * p + q3 * p) by (nonlinear_arith);
        assert((q1 + q3) * p < (2 * q2 + 2) * p) by (nonlinear_arith)
            requires
                (q1 + q3) * p <= 2 * q2 * p + 2 * r2 * c,
                2 * r2 * c < 2 * p,
        ;
        assert(q1 + q3 < 2 * q2 + 2) by (nonlinear_arith)
            requires
                (q1 + q3) * p < (2 * q2 + 2) * p,
                0 < p,
        ;
        if r2 == 0 {
            assert((q1 + q3) * p <= (2 * q2) * p) by (nonlinear_arith)
                requires
                    (q1 + q3) * p <= 2 * q2 * p + 2 * r2 * c,
                    r2 == 0,
            ;
            assert(q1 + q3 <= 2 * q2) by (nonlinear_arith)
                requires
                    (q1 + q3) * p <= (2 * q2) * p,
                    0 < p,
            ;
        }
    }
}

/// A constant-product quote is monotone: for fixed reserves and fee, a larger
/// order is never quoted less.
pub proof fn lemma_quote_with_fee_monotone(
    x1: nat,
    x2: nat,
    reserve_in: nat,
    reserve_out: nat,
    keep: nat,
    unit: nat,
)
    requires
        0 < unit,
        x1 <= x2,
    ensures
        quote_with_fee(x1, reserve_in, reserve_out, keep, unit) <= quote_with_fee(
            x2,
            reserve_in,
            reserve_out,
            keep,
            unit,
        ),
{
    lemma_after_fee_monotone(x1, x2, keep, unit);
    lemma_quote_monotone(
        after_fee(x1, keep, unit),
        after_fee(x2, keep, unit),
        reserve_in,
        reserve_out,
    );
}

/// A constant-product quote never exceeds the reserve it is paid from.
pub proof fn lemma_quote_with_fee_bounded(
    input: nat,
    reserve_in: nat,
    reserve_out: nat,
    keep: nat,
    unit: nat,
)
    ensures
        quote_with_fee(input, reserve_in, reserve_out, keep, unit) <= reserve_out,
        reserve_out > 0 ==> quote_with_fee(input, reserve_in, reserve_out, keep, unit)
            < reserve_out,
{
    lemma_quote_below_reserve(after_fee(input, keep, unit), reserve_in, reserve_out);
}

/// A constant-product quote is concave in the order size wherever rounding
/// does not interfere: around a midpoint `x` at which neither the fee
/// division nor the quote division leaves a remainder, the marginal output
/// of the step up to `x + h` is at most that of the step up from `x - h`.
pub proof fn lemma_quote_with_fee_concave(
    x: nat,
    h: nat,
    reserve_in: nat,
    reserve_out: nat,
    keep: nat,
    unit: nat,
)
    requires
        0 < unit,
        h <= x,
        (x * keep) % unit == 0,
        (reserve_out * after_fee(x, keep, unit)) % (reserve_in + after_fee(x, keep, unit)) == 0,
    ensures
        quote_with_fee(x + h, reserve_in, reserve_out, keep, unit) - quote_with_fee(
            x,
            reserve_in,
            reserve_out,
            keep,
            unit,
        ) <= quote_with_fee(x, reserve_in, reserve_out, keep, unit) - quote_with_fee(
            (x - h) as nat,
            reserve_in,
            reserve_out,
            keep,
            unit,
        ),
{
    let lo = (x - h) as nat;
    let hi = x + h;
    let e1 = after_fee(lo, keep, unit);
    let e2 = after_fee(x, keep, unit);
    let e3 = after_fee(hi, keep, unit);
    lemma_after_fee_monotone(lo, x, keep, unit);
    lemma_fundamental_div_mod((lo * keep) as int, unit as int);
    lemma_fundamental_div_mod((x * keep) as int, unit as int);
    lemma_fundamental_div_mod((hi * keep) as int, unit as int);
    lemma_mod_bound((lo * keep) as int, unit as int);
    lemma_mod_bound((hi * keep) as int, unit as int);
    assert(lo * keep + hi * keep == 2 * (x * keep)) by (nonlinear_arith)
        requires
            lo + hi == 2 * x,
    ;
    assert(e1 + e3 <= 2 * e2) by (nonlinear_arith)
        requires
            0 < unit,
            unit * e1 <= lo * keep,
            unit * e3 <= hi * keep,
            x * keep == unit * e2,
            lo * keep + hi * keep == 2 * (x * keep),
    {
        assert(unit * (e1 + e3) <= unit * (2 * e2));
    }
    let reach = (2 * e2 - e1) as nat;
    lemma_quote_monotone(e3, reach, reserve_in, reserve_out);
    lemma_quote_midpoint(e2, (e2 - e1) as nat, reserve_in, reserve_out);
}

/// A constant-product quote is concave in the effective order size up to one
/// unit of integer rounding, on every input.
pub proof fn lemma_quote_concave_within_rounding(
    e: nat,
    h: nat,
    reserve_in: nat,
    reserve_out: nat,
)
    requires
        h <= e,
    ensures
        cpamm_quote(e + h, reserve_in, reserve_out) - cpamm_quote(e, reserve_in, reserve_out)
            <= cpamm_quote(e, reserve_in, reserve_out) - cpamm_quote(
            (e - h) as nat,
            reserve_in,
            reserve_out,
        ) + 1,
{
    lemma_quote_midpoint(e, h, reserve_in, reserve_out);
}

/// Computes the quote for an effective input that fits in 64 bits.
pub(crate) fn quote_effective(input_eff: u128, reserve_in: u64, reserve_out: u64) -> (out: u64)
    requires
        input_eff <= u64::MAX,
    ensures
        out == cpamm_quote(input_eff as nat, reserve_in as nat, reserve_out as nat),
{
    if input_eff == 0 || reserve_in == 0 || reserve_out == 0 {
        return 0;
    }
    proof {
        lemma_quote_below_reserve(input_eff as nat, reserve_in as nat, reserve_out as nat);
        assert((reserve_out as int) * (input_eff as int) <= 0xFFFF_FFFF_FFFF_FFFF
            * 0xFFFF_FFFF_FFFF_FFFF) by (nonlinear_arith)
            requires
                0 <= reserve_out <= 0xFFFF_FFFF_FFFF_FFFF,
                0 <= input_eff <= 0xFFFF_FFFF_FFFF_FFFF,
        ;
    }
    let numerator: u128 = (reserve_out as u128) * input_eff;
    let denominator: u128 = (reserve_in as u128) + input_eff;
    (numerator / denominator) as u64
}

/// Computes what is left of `input` after a fee that keeps `keep` in `unit`.
pub(crate) fn effective_input(input: u64, keep: u64, unit: u64) -> (eff: u128)
    requires
        0 < unit,
        keep <= unit,
    ensures
        eff == after_fee(input as nat, keep as nat, unit as nat),
        eff <= input,
{
    proof {
        lemma_after_fee_bounds(input as nat, keep as nat, unit as nat);
        assert((input as int) * (keep as int) <= 0xFFFF_FFFF_FFFF_FFFF * 0xFFFF_FFFF_FFFF_FFFF)
            by (nonlinear_arith)
            requires
                0 <= input <= 0xFFFF_FFFF_FFFF_FFFF,
                0 <= keep <= 0xFFFF_FFFF_FFFF_FFFF,
        ;
    }
    (input as u128) * (keep as u128) / (unit as u128)
}

} // verus!
