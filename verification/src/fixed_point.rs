//! Fixed-point helpers for strategy authors.
//!
//! Token amounts are scaled by `SCALE` (10^9); fees are fractions of `WAD`
//! (10^18). Every intermediate product is taken in 128 bits.

use crate::cpamm::{effective_input, lemma_quote_below_reserve, quote_effective, quote_with_fee};
use vstd::arithmetic::div_mod::{lemma_fundamental_div_mod, lemma_mod_bound};
use vstd::prelude::*;

verus! {

/// One token, in scaled units.
pub const SCALE: u64 = 1_000_000_000;

/// The fixed-point representation of 1.0 used for fees.
pub const WAD: u64 = 1_000_000_000_000_000_000;

/// The largest fee `clamp_fee` lets through: 10%.
pub const MAX_FEE_WAD: u64 = WAD / 10;

/// The smallest fee.
pub const MIN_FEE_WAD: u64 = 0;

/// One basis point as a fraction of `WAD`.
pub const WAD_PER_BPS: u64 = WAD / 10_000;

/// The largest basis-point count whose `WAD` form fits in 64 bits.
pub const MAX_BPS: u64 = 184_467;

/// 2^64, the modulus of 64-bit truncation.
pub open spec fn two_pow_64() -> int {
    0x1_0000_0000_0000_0000
}

/// `a * b / WAD`, rounded down.
pub open spec fn wmul_exact(a: int, b: int) -> int {
    a * b / (WAD as int)
}

/// `a * WAD / b`, rounded down, and 0 where `b` is 0.
pub open spec fn wdiv_exact(a: int, b: int) -> int {
    if b == 0 {
        0
    } else {
        a * (WAD as int) / b
    }
}

proof fn lemma_product_fits_u128(a: u64, b: u64)
    by (nonlinear_arith)
    ensures
        0 <= (a as int) * (b as int) <= 0xFFFF_FFFF_FFFF_FFFE_0000_0000_0000_0001,
{
}

/// WAD-precision product. The quotient keeps its low 64 bits: it fits
/// whenever `a * b < 2^64 * WAD`, and in particular whenever either factor is
/// at most `WAD`.
pub fn wmul(a: u64, b: u64) -> (r: u64)
    ensures
        r as int == wmul_exact(a as int, b as int) % two_pow_64(),
        wmul_exact(a as int, b as int) < two_pow_64() ==> r as int == wmul_exact(
            a as int,
            b as int,
        ),
{
    proof {
        lemma_product_fits_u128(a, b);
    }
    let wide: u128 = (a as u128) * (b as u128);
    let q: u128 = wide / (WAD as u128);
    (q % 0x1_0000_0000_0000_0000u128) as u64
}

/// WAD-precision quotient; 0 for a zero divisor. The quotient keeps its low
/// 64 bits.
pub fn wdiv(a: u64, b: u64) -> (r: u64)
    ensures
        r as int == wdiv_exact(a as int, b as int) % two_pow_64(),
        b == 0 ==> r == 0,
        wdiv_exact(a as int, b as int) < two_pow_64() ==> r as int == wdiv_exact(
            a as int,
            b as int,
        ),
{
    if b == 0 {
        return 0;
    }
    proof {
        lemma_product_fits_u128(a, WAD);
    }
    let wide: u128 = (a as u128) * (WAD as u128);
    let q: u128 = wide / (b as u128);
    (q % 0x1_0000_0000_0000_0000u128) as u64
}

/// Basis points as a WAD fraction: 30 bps is `30 * 10^14`.
pub fn bps_to_wad(bps: u64) -> (r: u64)
    requires
        bps <= MAX_BPS,
    ensures
        r == bps * WAD_PER_BPS,
{
    bps * WAD_PER_BPS
}

/// Caps a fee at `MAX_FEE_WAD`.
pub fn clamp_fee(fee: u64) -> (r: u64)
    ensures
        r == if fee <= MAX_FEE_WAD {
            fee
        } else {
            MAX_FEE_WAD
        },
        MIN_FEE_WAD <= r <= MAX_FEE_WAD,
{
    if fee <= MAX_FEE_WAD {
        fee
    } else {
        MAX_FEE_WAD
    }
}

/// Constant-product output under a WAD fee: the fee is taken from the input,
/// rounded down, and the pool pays `reserve_out * e / (reserve_in + e)` for
/// the effective input `e`, rounded down. An empty order or an empty side of
/// the pool yields 0.
pub fn cpamm_output_wad(input: u64, reserve_in: u64, reserve_out: u64, fee_wad: u64) -> (out: u64)
    requires
        fee_wad <= WAD,
    ensures
        out == quote_with_fee(
            input as nat,
            reserve_in as nat,
            reserve_out as nat,
            (WAD - fee_wad) as nat,
            WAD as nat,
        ),
        out <= reserve_out,
        input == 0 || reserve_in == 0 || reserve_out == 0 ==> out == 0,
{
    let input_eff = effective_input(input, WAD - fee_wad, WAD);
    proof {
        lemma_quote_below_reserve(input_eff as nat, reserve_in as nat, reserve_out as nat);
    }
    quote_effective(input_eff, reserve_in, reserve_out)
}

/// `r` is the integer square root of `x`: the largest integer whose square
/// does not exceed `x`.
pub open spec fn is_integer_sqrt(x: int, r: int) -> bool {
    0 <= r && r * r <= x < (r + 1) * (r + 1)
}

/// One Newton step from a positive guess whose successor squares above `x`
/// lands on a guess whose successor squares above `x` too.
proof fn lemma_newton_step(x: int, z: int)
    requires
        0 <= x,
        0 < z,
    ensures
        x < ((z + x / z) / 2 + 1) * ((z + x / z) / 2 + 1),
        x / z >= z ==> z * z <= x,
        z <= x ==> 1 <= (z + x / z) / 2,
{
    let q = x / z;
    let y = (z + q) / 2;
    lemma_fundamental_div_mod(x, z);
    lemma_mod_bound(x, z);
    let r = x % z;
    assert(0 <= q) by (nonlinear_arith)
        requires
            x == z * q + r,
            0 <= r < z,
            0 <= x,
    ;
    assert(x < z * (q + 1)) by (nonlinear_arith)
        requires
            x == z * q + r,
            r < z,
    ;
    assert(4 * (z * (q + 1)) <= (z + q + 1) * (z + q + 1)) by (nonlinear_arith)
        requires
            0 < z,
            0 <= q,
    {
        assert((z + q + 1) * (z + q + 1) - 4 * (z * (q + 1)) == (z - (q + 1)) * (z - (q + 1)));
    }
    let t = 2 * (y + 1);
    assert(z + q + 1 <= t);
    assert((z + q + 1) * (z + q + 1) <= t * t) by (nonlinear_arith)
        requires
            0 <= z + q + 1 <= t,
    ;
    assert(t * t == 4 * ((y + 1) * (y + 1))) by (nonlinear_arith)
        requires
            t == 2 * (y + 1),
    ;
    if q >= z {
        assert(z * z <= x) by (nonlinear_arith)
            requires
                x == z * q + r,
                0 <= r,
                q >= z,
                0 < z,
        ;
    }
    if z <= x {
        assert(1 <= q) by (nonlinear_arith)
            requires
                x == z * q + r,
                r < z,
                z <= x,
                0 < z,
        ;
    }
}

/// Integer square root by Newton's iteration from above.
pub fn sqrt(x: u64) -> (r: u64)
    ensures
        is_integer_sqrt(x as int, r as int),
{
    if x == 0 {
        assert(is_integer_sqrt(0, 0)) by (nonlinear_arith);
        return 0;
    }
    let mut z: u64 = x;
    let mut y: u64 = x / 2 + x % 2;
    proof {
        assert((x as int) < (x + 1) * (x + 1)) by (nonlinear_arith)
            requires
                0 < x,
        ;
    }
    while y < z
        invariant
            0 < z <= x,
            (x as int) < (z + 1) * (z + 1),
            y as int == (z + x / z) / 2,
            y <= 0x8000_0000_0000_0000,
        decreases z,
    {
        proof {
            lemma_newton_step(x as int, z as int);
            lemma_newton_step(x as int, y as int);
            // the next guess is at most y + 1: x / y <= y + 2
            assert(x / y <= y + 2) by (nonlinear_arith)
                requires
                    0 < y,
                    (x as int) < (y + 1) * (y + 1),
            {
                assert((x as int) < y * (y + 3));
            }
            // and a guess of 2^32 or more is never raised
            assert(y >= 0x1_0000_0000 ==> x / y < 0x1_0000_0000) by (nonlinear_arith)
                requires
                    0 < y,
                    x <= 0xFFFF_FFFF_FFFF_FFFF,
            {
                if y >= 0x1_0000_0000 {
                    assert((x as int) < y * 0x1_0000_0000);
                }
            }
        }
        z = y;
        y = (y + x / y) / 2;
    }
    proof {
        lemma_newton_step(x as int, z as int);
    }
    z
}

} // verus!
