//! Two stock strategies and the dispatch of notifications, written against
//! the same interface a custom strategy uses.

use crate::context::{AfterSwapContext, EpochContext, SwapContext};
use crate::cpamm::quote_with_fee;
use crate::fixed_point::{cpamm_output_wad, MAX_FEE_WAD, WAD, WAD_PER_BPS};
use crate::le::{get_u64_le, u64_at};
use crate::market::{cpamm_output, cpamm_output_spec, BPS_DENOMINATOR};
use crate::storage::{read_u64, slot_value};
use crate::types::{AFTER_SWAP_HEADER_LEN, EPOCH_HEADER_LEN, TAG_AFTER_SWAP, TAG_EPOCH_BOUNDARY};
use vstd::prelude::*;

verus! {

/// Bytes of a quote request that come before the storage.
pub const QUOTE_HEADER_LEN: usize = 25;

/// Storage slot of the fee charged to trades that buy X.
pub const S_BID_FEE: usize = 0;

/// Storage slot of the fee charged to trades that sell X.
pub const S_ASK_FEE: usize = 1;

/// The adaptive strategy never charges less than 5 basis points.
pub const FLOOR_FEE_WAD: u64 = 5 * WAD_PER_BPS;

/// What the fixed-fee strategy quotes for the request in `bytes`: nothing for
/// a request too short to hold its header, else the constant-product output
/// for the request's input, paid from the reserve opposite to the input's.
pub open spec fn fixed_fee_quote(bytes: Seq<u8>, fee_bps: u32) -> nat {
    if bytes.len() < QUOTE_HEADER_LEN {
        0
    } else if bytes[0] == 0 {
        cpamm_output_spec(u64_at(bytes, 1), u64_at(bytes, 17), u64_at(bytes, 9), fee_bps)
    } else {
        cpamm_output_spec(u64_at(bytes, 1), u64_at(bytes, 9), u64_at(bytes, 17), fee_bps)
    }
}

/// A strategy that quotes as a constant-product pool with a fixed fee and
/// keeps no state. It reads only the 25-byte header of the request.
pub fn fixed_fee_compute_swap(data: &[u8], fee_bps: u32) -> (out: u64)
    requires
        fee_bps <= BPS_DENOMINATOR,
    ensures
        out == fixed_fee_quote(data@, fee_bps),
{
    if data.len() < QUOTE_HEADER_LEN {
        return 0;
    }
    let input = get_u64_le(data, 1);
    let rx = get_u64_le(data, 9);
    let ry = get_u64_le(data, 17);
    if data[0] == 0 {
        cpamm_output(input, ry, rx, fee_bps)
    } else {
        cpamm_output(input, rx, ry, fee_bps)
    }
}

/// The fee the adaptive strategy charges a trade: the one stored for the
/// trade's side, but at least the floor.
pub open spec fn stored_fee(ctx: SwapContext) -> u64 {
    let slot = if ctx.is_buy {
        S_BID_FEE
    } else {
        S_ASK_FEE
    };
    let fee = slot_value(ctx.storage@, slot as int);
    if fee < FLOOR_FEE_WAD {
        FLOOR_FEE_WAD
    } else {
        fee
    }
}

/// The adaptive strategy's quote: a constant-product output under the fee
/// stored for the trade's side. The stored fee must be a fraction of the
/// whole, as every fee the strategy writes is.
pub fn compute_swap(ctx: &SwapContext) -> (out: u64)
    requires
        stored_fee(*ctx) <= WAD,
    ensures
        ctx.is_buy ==> out == quote_with_fee(
            ctx.input_amount as nat,
            ctx.reserve_y as nat,
            ctx.reserve_x as nat,
            (WAD - stored_fee(*ctx)) as nat,
            WAD as nat,
        ),
        !ctx.is_buy ==> out == quote_with_fee(
            ctx.input_amount as nat,
            ctx.reserve_x as nat,
            ctx.reserve_y as nat,
            (WAD - stored_fee(*ctx)) as nat,
            WAD as nat,
        ),
{
    let stored = if ctx.is_buy {
        read_u64(&ctx.storage, S_BID_FEE)
    } else {
        read_u64(&ctx.storage, S_ASK_FEE)
    };
    let fee = if stored < FLOOR_FEE_WAD {
        FLOOR_FEE_WAD
    } else {
        stored
    };
    if ctx.is_buy {
        cpamm_output_wad(ctx.input_amount, ctx.reserve_y, ctx.reserve_x, fee)
    } else {
        cpamm_output_wad(ctx.input_amount, ctx.reserve_x, ctx.reserve_y, fee)
    }
}

/// The adaptive strategy's quote for any request: `None` where the fee in
/// storage exceeds the whole, as no fee the strategy writes does.
pub fn checked_compute_swap(ctx: &SwapContext) -> (out: Option<u64>)
    ensures
        out is Some <==> stored_fee(*ctx) <= WAD,
        ctx.is_buy ==> (out matches Some(v) ==> v == quote_with_fee(
            ctx.input_amount as nat,
            ctx.reserve_y as nat,
            ctx.reserve_x as nat,
            (WAD - stored_fee(*ctx)) as nat,
            WAD as nat,
        )),
        !ctx.is_buy ==> (out matches Some(v) ==> v == quote_with_fee(
            ctx.input_amount as nat,
            ctx.reserve_x as nat,
            ctx.reserve_y as nat,
            (WAD - stored_fee(*ctx)) as nat,
            WAD as nat,
        )),
{
    let stored = if ctx.is_buy {
        read_u64(&ctx.storage, S_BID_FEE)
    } else {
        read_u64(&ctx.storage, S_ASK_FEE)
    };
    if stored > WAD {
        None
    } else {
        Some(compute_swap(ctx))
    }
}

/// `fee`, held between the floor and the cap.
pub open spec fn held_fee(fee: int) -> u64 {
    if fee < FLOOR_FEE_WAD {
        FLOOR_FEE_WAD
    } else if fee > MAX_FEE_WAD {
        MAX_FEE_WAD
    } else {
        fee as u64
    }
}

/// Moves a fee by `shift` and holds the result between the 5 basis point
/// floor and the 10% cap.
pub fn shifted_fee(fee: u64, shift: i64) -> (r: u64)
    ensures
        r == held_fee(fee + shift),
        FLOOR_FEE_WAD <= r <= MAX_FEE_WAD,
{
    let moved: i128 = fee as i128 + shift as i128;
    if moved < FLOOR_FEE_WAD as i128 {
        FLOOR_FEE_WAD
    } else if moved > MAX_FEE_WAD as i128 {
        MAX_FEE_WAD
    } else {
        moved as u64
    }
}

/// The adaptive strategy's fee before any adjustment: 30 basis points.
pub const BASE_FEE_WAD: u64 = 30 * WAD_PER_BPS;

/// The most the adaptive strategy adds for volatility, in basis points.
pub const MAX_VOL_PREMIUM_BPS: u64 = 200;

/// What the adaptive strategy moves its fees by when it is behind or ahead
/// in order flow: 10 basis points.
pub const FLOW_STEP_WAD: i64 = 1_000_000_000_000_000;

/// What the adaptive strategy moves the fee of the side just hit by, and
/// both fees when its share of capital is small or large: 5 basis points.
pub const SIDE_STEP_WAD: i64 = 500_000_000_000_000;

/// Where a strategy stands against its competitors, by whatever measure the
/// caller applies.
#[derive(Clone, Copy, Debug, PartialEq, Eq, Structural)]
pub enum Standing {
    /// It is losing: fees go down to win flow back.
    Behind,
    /// Neither.
    Level,
    /// It dominates: fees can go up.
    Ahead,
}

/// The fee shift a standing calls for, in steps of `step`.
pub open spec fn standing_shift(standing: Standing, step: i64) -> int {
    match standing {
        Standing::Behind => -step,
        Standing::Level => 0,
        Standing::Ahead => step as int,
    }
}

/// The shift of the ask fee after a trade: up after a buy, down after a
/// sell. The bid fee moves the other way.
pub open spec fn side_shift(is_buy: bool) -> int {
    if is_buy {
        SIDE_STEP_WAD as int
    } else {
        -SIDE_STEP_WAD
    }
}

/// The volatility premium as a WAD fraction, capped at 200 basis points.
pub open spec fn capped_premium_wad(vol_premium_bps: u64) -> int {
    if vol_premium_bps > MAX_VOL_PREMIUM_BPS {
        20_000_000_000_000_000
    } else {
        vol_premium_bps * 100_000_000_000_000
    }
}

/// The adaptive strategy's fees after a trade, bid first: the base fee plus
/// the capped volatility premium, moved by the flow standing, with the side
/// that was just hit widened and the other narrowed, each held between the
/// floor and the cap.
pub fn adaptive_fees(vol_premium_bps: u64, flow: Standing, is_buy: bool) -> (fees: (u64, u64))
    ensures
        fees.0 == held_fee(
            BASE_FEE_WAD + capped_premium_wad(vol_premium_bps) + standing_shift(
                flow,
                FLOW_STEP_WAD,
            ) - side_shift(is_buy),
        ),
        fees.1 == held_fee(
            BASE_FEE_WAD + capped_premium_wad(vol_premium_bps) + standing_shift(
                flow,
                FLOW_STEP_WAD,
            ) + side_shift(is_buy),
        ),
{
    let premium = if vol_premium_bps > MAX_VOL_PREMIUM_BPS {
        MAX_VOL_PREMIUM_BPS
    } else {
        vol_premium_bps
    };
    let base_fee: u64 = BASE_FEE_WAD + premium * WAD_PER_BPS;
    let flow_shift: i64 = match flow {
        Standing::Behind => -FLOW_STEP_WAD,
        Standing::Level => 0,
        Standing::Ahead => FLOW_STEP_WAD,
    };
    let side: i64 = if is_buy {
        SIDE_STEP_WAD
    } else {
        -SIDE_STEP_WAD
    };
    (shifted_fee(base_fee, flow_shift - side), shifted_fee(base_fee, flow_shift + side))
}

/// The adaptive strategy's fee for a new epoch: the old fee, lowered by a
/// step where its share of capital is small and raised by one where it is
/// large, held between the floor and the cap.
pub fn epoch_fee(old_fee: u64, capital: Standing) -> (fee: u64)
    ensures
        fee == held_fee(old_fee + standing_shift(capital, SIDE_STEP_WAD)),
{
    let shift: i64 = match capital {
        Standing::Behind => -SIDE_STEP_WAD,
        Standing::Level => 0,
        Standing::Ahead => SIDE_STEP_WAD,
    };
    shifted_fee(old_fee, shift)
}

/// A notification, told apart by its tag.
#[derive(Clone, Copy, Debug)]
pub enum Hook {
    /// A trade was applied to the pool.
    AfterSwap(AfterSwapContext),
    /// An epoch ended.
    EpochBoundary(EpochContext),
    /// Neither, or a message too short for its header.
    Ignored,
}

/// Tells a notification by its first byte: 2 is an after-swap message, 5 an
/// epoch boundary. An empty message, another tag, or a message shorter than
/// its header is ignored.
pub fn decode_hook(data: &[u8]) -> (hook: Hook)
    ensures
        hook is AfterSwap <==> data@.len() >= AFTER_SWAP_HEADER_LEN && data@[0] == TAG_AFTER_SWAP,
        hook is EpochBoundary <==> data@.len() >= EPOCH_HEADER_LEN && data@[0]
            == TAG_EPOCH_BOUNDARY,
        hook matches Hook::AfterSwap(ctx) ==> ctx.decodes(data@),
        hook matches Hook::EpochBoundary(ctx) ==> ctx.decodes(data@),
{
    if data.len() == 0 {
        return Hook::Ignored;
    }
    let tag = data[0];
    if tag == TAG_AFTER_SWAP {
        match AfterSwapContext::from_bytes(data) {
            Some(ctx) => Hook::AfterSwap(ctx),
            None => Hook::Ignored,
        }
    } else if tag == TAG_EPOCH_BOUNDARY {
        match EpochContext::from_bytes(data) {
            Some(ctx) => Hook::EpochBoundary(ctx),
            None => Hook::Ignored,
        }
    } else {
        Hook::Ignored
    }
}

/// The model the adaptive strategy declares: none.
pub fn get_model_used() -> (model: &'static str)
    ensures
        model@ == "None"@,
{
    "None"
}

} // verus!
