//! The engine's side of the strategy interface: message encoders and the
//! built-in reference pool.

use crate::cpamm::{after_fee, lemma_quote_with_fee_bounded, lemma_quote_with_fee_monotone};
use crate::le::{holds_at, put_u32_le, put_u64_le, same_outside, u32_le_bytes, u64_le_bytes};
use crate::market::{
    cpamm_output, cpamm_output_spec, sample_norm_fee_bps, BPS_DENOMINATOR, NORM_FEE_BPS_MAX,
    NORM_FEE_BPS_MIN,
};
use crate::storage::{Storage, STORAGE_SIZE};
use crate::types::{
    AfterSwapPayload, EpochBoundaryPayload, AFTER_SWAP_HEADER_LEN, AFTER_SWAP_WIRE_LEN,
    EPOCH_HEADER_LEN, EPOCH_WIRE_LEN, PEER_SLOTS, QUOTE_WIRE_LEN, TAG_AFTER_SWAP,
    TAG_EPOCH_BOUNDARY, TAG_SWAP_BUY, TAG_SWAP_SELL,
};
use crate::wire::{
    after_swap_peers, after_swap_scalars, is_after_swap_wire, is_epoch_boundary_wire,
    is_quote_wire,
};
use rand_chacha::ChaCha8Rng;
use vstd::arithmetic::div_mod::{
    lemma_div_by_self, lemma_div_is_ordered, lemma_div_multiples_vanish,
    lemma_fundamental_div_mod, lemma_fundamental_div_mod_converse, lemma_mod_bound,
};
use vstd::prelude::*;

verus! {

/// Writes one byte at the cursor and advances it.
pub fn write_u8(buf: &mut [u8], offset: &mut usize, v: u8)
    requires
        *old(offset) < old(buf)@.len(),
    ensures
        *final(offset) == *old(offset) + 1,
        final(buf)@ == old(buf)@.update(*old(offset) as int, v),
{
    buf[*offset] = v;
    *offset = *offset + 1;
}

/// Writes a little-endian `u32` at the cursor and advances it.
pub fn write_u32(buf: &mut [u8], offset: &mut usize, v: u32)
    requires
        *old(offset) + 4 <= old(buf)@.len(),
    ensures
        *final(offset) == *old(offset) + 4,
        holds_at(final(buf)@, *old(offset) as int, u32_le_bytes(v)),
        same_outside(old(buf)@, final(buf)@, *old(offset) as int, 4),
{
    let len = buf.len();
    put_u32_le(buf, *offset, v);
    assert(*offset + 4 <= len);
    *offset = *offset + 4;
}

/// Writes a little-endian `u64` at the cursor and advances it.
pub fn write_u64(buf: &mut [u8], offset: &mut usize, v: u64)
    requires
        *old(offset) + 8 <= old(buf)@.len(),
    ensures
        *final(offset) == *old(offset) + 8,
        holds_at(final(buf)@, *old(offset) as int, u64_le_bytes(v)),
        same_outside(old(buf)@, final(buf)@, *old(offset) as int, 8),
{
    let len = buf.len();
    put_u64_le(buf, *offset, v);
    assert(*offset + 8 <= len);
    *offset = *offset + 8;
}

/// Copies a storage snapshot into `buf` from `off` on.
pub fn write_storage(buf: &mut [u8], off: usize, storage: &Storage)
    requires
        off + STORAGE_SIZE <= old(buf)@.len(),
    ensures
        holds_at(final(buf)@, off as int, storage@),
        same_outside(old(buf)@, final(buf)@, off as int, STORAGE_SIZE as int),
{
    let len = buf.len();
    let mut i: usize = 0;
    while i < STORAGE_SIZE
        invariant
            i <= STORAGE_SIZE,
            off + STORAGE_SIZE <= len,
            len == buf@.len(),
            same_outside(old(buf)@, buf@, off as int, STORAGE_SIZE as int),
            forall|k: int| 0 <= k < i ==> buf@[off + k] == #[trigger] storage@[k],
        decreases STORAGE_SIZE - i,
    {
        buf[off + i] = storage[i];
        i = i + 1;
    }
}

/// Encodes the after-swap notification for `p` into `buf`, which is resized
/// to the message's 1116 bytes. The storage snapshot is `storage`.
pub fn encode_after_swap_payload(p: &AfterSwapPayload, storage: &Storage, buf: &mut Vec<u8>)
    ensures
        is_after_swap_wire(final(buf)@, *p, storage@),
{
    buf.resize(AFTER_SWAP_WIRE_LEN, 0);
    let out = buf.as_mut_slice();
    let mut off: usize = 0;
    write_u8(out, &mut off, TAG_AFTER_SWAP);
    write_u8(out, &mut off, p.side);
    write_u64(out, &mut off, p.input_amount);
    write_u64(out, &mut off, p.output_amount);
    write_u64(out, &mut off, p.reserve_x);
    write_u64(out, &mut off, p.reserve_y);
    write_u64(out, &mut off, p.sim_step);
    write_u32(out, &mut off, p.epoch_step);
    write_u32(out, &mut off, p.epoch_number);
    write_u8(out, &mut off, p.n_strategies);
    write_u8(out, &mut off, p.strategy_index);
    write_u32(out, &mut off, p.flow_captured_bits);
    write_u32(out, &mut off, p.capital_weight_bits);
    let mut j: usize = 0;
    while j < PEER_SLOTS
        invariant
            j <= PEER_SLOTS,
            off == 60 + 4 * j,
            out@.len() == AFTER_SWAP_WIRE_LEN,
            after_swap_scalars(out@, *p),
            after_swap_peers(out@, *p, j as int),
        decreases PEER_SLOTS - j,
    {
        write_u32(out, &mut off, p.competing_spot_price_bits[j]);
        j = j + 1;
    }
    write_storage(out, AFTER_SWAP_HEADER_LEN, storage);
}

/// Encodes the epoch-boundary notification for `p` into `buf`, which is
/// resized to the message's 1065 bytes. The storage snapshot is `storage`.
pub fn encode_epoch_boundary_payload(
    p: &EpochBoundaryPayload,
    storage: &Storage,
    buf: &mut Vec<u8>,
)
    ensures
        is_epoch_boundary_wire(final(buf)@, *p, storage@),
{
    buf.resize(EPOCH_WIRE_LEN, 0);
    let out = buf.as_mut_slice();
    let mut off: usize = 0;
    write_u8(out, &mut off, TAG_EPOCH_BOUNDARY);
    write_u32(out, &mut off, p.epoch_number);
    write_u64(out, &mut off, p.new_reserve_x);
    write_u64(out, &mut off, p.new_reserve_y);
    write_u64(out, &mut off, p.epoch_edge_bits);
    write_u64(out, &mut off, p.cumulative_edge_bits);
    write_u32(out, &mut off, p.capital_weight_bits);
    write_storage(out, EPOCH_HEADER_LEN, storage);
}

/// Encodes a quote request: the direction's tag, the input, both reserves,
/// and the pool's storage for the strategy to read.
pub fn encode_compute_swap_payload(
    is_buy: bool,
    input: u64,
    reserve_x: u64,
    reserve_y: u64,
    storage: &Storage,
) -> (buf: [u8; QUOTE_WIRE_LEN])
    ensures
        is_quote_wire(buf@, is_buy, input, reserve_x, reserve_y, storage@),
{
    let mut buf = [0u8; QUOTE_WIRE_LEN];
    let mut off: usize = 0;
    let tag = if is_buy {
        TAG_SWAP_BUY
    } else {
        TAG_SWAP_SELL
    };
    write_u8(&mut buf, &mut off, tag);
    write_u64(&mut buf, &mut off, input);
    write_u64(&mut buf, &mut off, reserve_x);
    write_u64(&mut buf, &mut off, reserve_y);
    write_storage(&mut buf, off, storage);
    buf
}

/// The built-in reference pool: a plain constant-product market maker with
/// a fixed fee. It keeps no storage and never adapts.
#[derive(Clone, Copy, Debug)]
pub struct NormalizerRunner {
    pub fee_bps: u32,
}

impl NormalizerRunner {
    /// The fee is a fraction of the whole.
    pub open spec fn well_formed(&self) -> bool {
        self.fee_bps <= BPS_DENOMINATOR
    }

    /// What the reference pool quotes: a trade that buys X pays Y into the Y
    /// reserve and is paid from the X reserve; a trade that sells X does the
    /// reverse.
    pub open spec fn quote(&self, is_buy: bool, input: u64, rx: u64, ry: u64) -> nat {
        if is_buy {
            cpamm_output_spec(input, ry, rx, self.fee_bps)
        } else {
            cpamm_output_spec(input, rx, ry, self.fee_bps)
        }
    }

    /// The reference pool for a run: its fee is drawn from `rng`, and whatever
    /// is drawn is a fee the pool can quote with.
    pub fn sample(rng: &mut ChaCha8Rng) -> (norm: NormalizerRunner)
        ensures
            norm.well_formed(),
            NORM_FEE_BPS_MIN <= norm.fee_bps <= NORM_FEE_BPS_MAX,
    {
        NormalizerRunner { fee_bps: sample_norm_fee_bps(rng) }
    }

    /// Quotes `input` against the reserves `rx` and `ry`.
    pub fn compute_swap(&self, is_buy: bool, input: u64, rx: u64, ry: u64) -> (out: u64)
        requires
            self.well_formed(),
        ensures
            out == self.quote(is_buy, input, rx, ry),
            is_buy ==> out <= rx,
            !is_buy ==> out <= ry,
    {
        if is_buy {
            cpamm_output(input, ry, rx, self.fee_bps)
        } else {
            cpamm_output(input, rx, ry, self.fee_bps)
        }
    }
}

/// The reference pool honours what the router asks of every strategy: for
/// fixed reserves and direction its quote never falls as the input grows,
/// and it never pays out more than the reserve it pays from.
pub proof fn lemma_normalizer_quote_contract(
    norm: NormalizerRunner,
    is_buy: bool,
    x1: u64,
    x2: u64,
    rx: u64,
    ry: u64,
)
    requires
        norm.well_formed(),
        x1 <= x2,
    ensures
        norm.quote(is_buy, x1, rx, ry) <= norm.quote(is_buy, x2, rx, ry),
        is_buy ==> norm.quote(is_buy, x2, rx, ry) <= rx,
        !is_buy ==> norm.quote(is_buy, x2, rx, ry) <= ry,
{
    let keep = (BPS_DENOMINATOR - norm.fee_bps) as nat;
    let unit = BPS_DENOMINATOR as nat;
    if is_buy {
        lemma_quote_with_fee_monotone(x1 as nat, x2 as nat, ry as nat, rx as nat, keep, unit);
        lemma_quote_with_fee_bounded(x2 as nat, ry as nat, rx as nat, keep, unit);
    } else {
        lemma_quote_with_fee_monotone(x1 as nat, x2 as nat, rx as nat, ry as nat, keep, unit);
        lemma_quote_with_fee_bounded(x2 as nat, rx as nat, ry as nat, keep, unit);
    }
}

/// Input of the smaller of the two quotes a strategy is validated with.
pub const VALIDATION_SMALL_INPUT: u64 = 1_000_000_000;

/// Input of the larger of the two quotes a strategy is validated with.
pub const VALIDATION_LARGE_INPUT: u64 = 5_000_000_000;

/// X reserve the validation quotes are asked against.
pub const VALIDATION_RESERVE_X: u64 = 100_000_000_000;

/// Y reserve the validation quotes are asked against.
pub const VALIDATION_RESERVE_Y: u64 = 10_000_000_000_000;

/// Why a strategy fails validation.
#[derive(Clone, Copy, Debug, PartialEq, Eq, Structural)]
pub enum ValidationError {
    /// One of the two quotes was zero.
    ZeroOutput,
    /// The larger input was not quoted more than the smaller.
    NotMonotone,
}

/// The verdict on a strategy's two validation quotes: both must be positive,
/// and the quote for the larger input must exceed the one for the smaller. A
/// zero quote is reported as such even where the pair is also not monotone.
pub fn check_validation_quotes(out_small: u64, out_large: u64) -> (verdict: Result<
    (),
    ValidationError,
>)
    ensures
        verdict is Ok <==> 0 < out_small < out_large,
        verdict == Err::<(), ValidationError>(ValidationError::ZeroOutput) <==> out_small == 0
            || out_large == 0,
        verdict == Err::<(), ValidationError>(ValidationError::NotMonotone) <==> out_small != 0
            && out_large != 0 && out_large <= out_small,
{
    if out_small == 0 || out_large == 0 {
        Err(ValidationError::ZeroOutput)
    } else if out_large <= out_small {
        Err(ValidationError::NotMonotone)
    } else {
        Ok(())
    }
}

/// The reference pool passes validation with any fee short of the whole.
pub proof fn lemma_normalizer_passes_validation(norm: NormalizerRunner)
    requires
        norm.fee_bps < BPS_DENOMINATOR,
    ensures
        0 < norm.quote(true, VALIDATION_SMALL_INPUT, VALIDATION_RESERVE_X, VALIDATION_RESERVE_Y)
            < norm.quote(
            true,
            VALIDATION_LARGE_INPUT,
            VALIDATION_RESERVE_X,
            VALIDATION_RESERVE_Y,
        ),
{
    let k = (BPS_DENOMINATOR - norm.fee_bps) as int;
    let ri = VALIDATION_RESERVE_Y as int;
    let ro = VALIDATION_RESERVE_X as int;
    let es = after_fee(VALIDATION_SMALL_INPUT as nat, k as nat, BPS_DENOMINATOR as nat) as int;
    let el = after_fee(VALIDATION_LARGE_INPUT as nat, k as nat, BPS_DENOMINATOR as nat) as int;
    assert(es == 100_000 * k && el == 500_000 * k) by {
        assert(VALIDATION_SMALL_INPUT * k == 1_000_000_000 * k);
        assert(VALIDATION_LARGE_INPUT * k == 5_000_000_000 * k);
        lemma_fundamental_div_mod_converse(1_000_000_000 * k, 10_000, 100_000 * k, 0);
        lemma_fundamental_div_mod_converse(5_000_000_000 * k, 10_000, 500_000 * k, 0);
    }
    let ns = ro * es;
    let nl = ro * el;
    let ds = ri + es;
    let dl = ri + el;
    let qs = ns / ds;
    let ql = nl / dl;
    assert(qs == norm.quote(
        true,
        VALIDATION_SMALL_INPUT,
        VALIDATION_RESERVE_X,
        VALIDATION_RESERVE_Y,
    ));
    assert(ql == norm.quote(
        true,
        VALIDATION_LARGE_INPUT,
        VALIDATION_RESERVE_X,
        VALIDATION_RESERVE_Y,
    ));
    lemma_fundamental_div_mod(ns, ds);
    lemma_mod_bound(ns, ds);
    // the small quote is at least one unit
    assert(ns >= ds);
    lemma_div_is_ordered(ds, ns, ds);
    lemma_div_by_self(ds);
    assert(qs >= 1);
    // five times the input against a denominator that grows by less
    assert((qs + 1) * dl <= nl) by (nonlinear_arith)
        requires
            ns == ds * qs + ns % ds,
            0 <= ns % ds,
            nl == 5 * ns,
            dl == 5 * ds - 40_000_000_000_000,
            dl <= 40_000_000_000_000,
            qs >= 1,
    {
        assert(qs * dl == 5 * (ds * qs) - 40_000_000_000_000 * qs);
        assert((qs + 1) * dl == qs * dl + dl);
    }
    lemma_div_is_ordered((qs + 1) * dl, nl, dl);
    lemma_div_multiples_vanish(qs + 1, dl);
    assert((qs + 1) * dl == dl * (qs + 1)) by (nonlinear_arith);
}

} // verus!
