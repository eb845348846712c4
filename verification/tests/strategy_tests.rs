use prop_amm_engine::context::SwapContext;
use prop_amm_engine::fixed_point::{bps_to_wad, cpamm_output_wad, MAX_FEE_WAD};
use prop_amm_engine::market::cpamm_output;
use prop_amm_engine::runner::{
    check_validation_quotes, encode_after_swap_payload, encode_compute_swap_payload,
    encode_epoch_boundary_payload, NormalizerRunner, ValidationError, VALIDATION_LARGE_INPUT,
    VALIDATION_RESERVE_X, VALIDATION_RESERVE_Y, VALIDATION_SMALL_INPUT,
};
use prop_amm_engine::sim::{build_after_swap_payload, build_epoch_boundary_payload};
use prop_amm_engine::storage::{empty_storage, write_u64, Storage};
use prop_amm_engine::strategy::{
    checked_compute_swap, compute_swap, decode_hook, fixed_fee_compute_swap, get_model_used,
    shifted_fee, Hook, FLOOR_FEE_WAD, S_ASK_FEE, S_BID_FEE,
};
use prop_amm_engine::types::{AmmState, SCALE};
use rand::SeedableRng;
use rand_chacha::ChaCha8Rng;

fn request(is_buy: bool, input: u64, rx: u64, ry: u64, storage: &Storage) -> SwapContext {
    SwapContext::from_bytes(&encode_compute_swap_payload(is_buy, input, rx, ry, storage)).unwrap()
}

#[test]
fn normalizer_quotes_against_the_opposite_reserve() {
    let n = NormalizerRunner { fee_bps: 30 };
    let (rx, ry) = (100 * SCALE, 10_000 * SCALE);
    assert_eq!(n.compute_swap(true, SCALE, rx, ry), 9_969_006);
    assert_eq!(n.compute_swap(false, SCALE, rx, ry), 98_715_803_439);
    assert_eq!(n.compute_swap(true, SCALE, rx, ry), cpamm_output(SCALE, ry, rx, 30));
    assert_eq!(n.compute_swap(false, 0, rx, ry), 0);
}

#[test]
fn sampled_normalizer_has_a_fee_in_range() {
    let mut rng = ChaCha8Rng::seed_from_u64(0);
    for _ in 0..200 {
        let n = NormalizerRunner::sample(&mut rng);
        assert!(n.fee_bps >= 30 && n.fee_bps <= 80);
    }
}

#[test]
fn validation_verdicts() {
    assert_eq!(check_validation_quotes(1, 2), Ok(()));
    assert_eq!(check_validation_quotes(0, 2), Err(ValidationError::ZeroOutput));
    assert_eq!(check_validation_quotes(2, 0), Err(ValidationError::ZeroOutput));
    assert_eq!(check_validation_quotes(0, 0), Err(ValidationError::ZeroOutput));
    assert_eq!(check_validation_quotes(2, 2), Err(ValidationError::NotMonotone));
    assert_eq!(check_validation_quotes(3, 2), Err(ValidationError::NotMonotone));
}

#[test]
fn normalizer_passes_validation() {
    let quotes = |fee_bps: u32| {
        let n = NormalizerRunner { fee_bps };
        let (rx, ry) = (VALIDATION_RESERVE_X, VALIDATION_RESERVE_Y);
        (
            n.compute_swap(true, VALIDATION_SMALL_INPUT, rx, ry),
            n.compute_swap(true, VALIDATION_LARGE_INPUT, rx, ry),
        )
    };
    for fee_bps in [0, 30, 80, 200, 9_999] {
        let (small, large) = quotes(fee_bps);
        assert_eq!(check_validation_quotes(small, large), Ok(()));
    }
    let (small, large) = quotes(10_000);
    assert_eq!(check_validation_quotes(small, large), Err(ValidationError::ZeroOutput));
}

#[test]
fn fixed_fee_strategy_reads_the_request() {
    let st = empty_storage();
    let buy = encode_compute_swap_payload(true, SCALE, 100 * SCALE, 10_000 * SCALE, &st);
    let sell = encode_compute_swap_payload(false, SCALE, 100 * SCALE, 10_000 * SCALE, &st);
    assert_eq!(fixed_fee_compute_swap(&buy, 30), 9_969_006);
    assert_eq!(fixed_fee_compute_swap(&sell, 30), 98_715_803_439);
    assert_eq!(
        fixed_fee_compute_swap(&buy, 70),
        cpamm_output(SCALE, 10_000 * SCALE, 100 * SCALE, 70)
    );
    assert_eq!(fixed_fee_compute_swap(&buy[..25], 30), 9_969_006);
    assert_eq!(fixed_fee_compute_swap(&buy[..24], 30), 0);
    assert_eq!(fixed_fee_compute_swap(&[], 30), 0);
}

#[test]
fn adaptive_strategy_uses_the_stored_fee_of_the_side() {
    let mut st = empty_storage();
    write_u64(&mut st, S_BID_FEE, bps_to_wad(30));
    write_u64(&mut st, S_ASK_FEE, bps_to_wad(100));
    let (rx, ry) = (100 * SCALE, 10_000 * SCALE);
    let buy = request(true, SCALE, rx, ry, &st);
    let sell = request(false, SCALE, rx, ry, &st);
    assert_eq!(compute_swap(&buy), cpamm_output_wad(SCALE, ry, rx, bps_to_wad(30)));
    assert_eq!(compute_swap(&buy), 9_969_006);
    assert_eq!(compute_swap(&sell), cpamm_output_wad(SCALE, rx, ry, bps_to_wad(100)));
}

#[test]
fn adaptive_strategy_never_charges_less_than_the_floor() {
    let st = empty_storage();
    let (rx, ry) = (100 * SCALE, 10_000 * SCALE);
    let ctx = request(false, SCALE, rx, ry, &st);
    assert_eq!(FLOOR_FEE_WAD, bps_to_wad(5));
    assert_eq!(compute_swap(&ctx), cpamm_output_wad(SCALE, rx, ry, bps_to_wad(5)));
}

#[test]
fn shifted_fee_is_held_between_floor_and_cap() {
    let ten = bps_to_wad(10) as i64;
    assert_eq!(shifted_fee(bps_to_wad(30), ten), bps_to_wad(40));
    assert_eq!(shifted_fee(bps_to_wad(30), -ten), bps_to_wad(20));
    assert_eq!(shifted_fee(bps_to_wad(8), -ten), FLOOR_FEE_WAD);
    assert_eq!(shifted_fee(0, i64::MIN), FLOOR_FEE_WAD);
    assert_eq!(shifted_fee(MAX_FEE_WAD, 1), MAX_FEE_WAD);
    assert_eq!(shifted_fee(u64::MAX, i64::MAX), MAX_FEE_WAD);
    assert_eq!(shifted_fee(u64::MAX, i64::MIN), MAX_FEE_WAD);
    assert_eq!(shifted_fee(MAX_FEE_WAD + 5, -10), MAX_FEE_WAD - 5);
}

#[test]
fn hooks_are_told_apart_by_tag() {
    let amm = AmmState::new(93, 10_050, 2, "s");
    let p = build_after_swap_payload(&amm, true, 50, 7, 1_234, 234, 1, 0, 0, [0; 8], 4);
    let mut buf = Vec::new();
    encode_after_swap_payload(&p, &amm.storage, &mut buf);
    match decode_hook(&buf) {
        Hook::AfterSwap(ctx) => {
            assert!(ctx.is_buy);
            assert_eq!(ctx.sim_step, 1_234);
            assert_eq!(ctx.strategy_index, 2);
        }
        other => panic!("unexpected {other:?}"),
    }
    let e = build_epoch_boundary_payload(&amm, 7, 0, 0);
    encode_epoch_boundary_payload(&e, &amm.storage, &mut buf);
    match decode_hook(&buf) {
        Hook::EpochBoundary(ctx) => {
            assert_eq!(ctx.epoch_number, 7);
            assert_eq!(ctx.new_reserve_y, 10_050);
        }
        other => panic!("unexpected {other:?}"),
    }
}

#[test]
fn other_messages_are_ignored() {
    assert!(matches!(decode_hook(&[]), Hook::Ignored));
    assert!(matches!(decode_hook(&[2; 91]), Hook::Ignored));
    assert!(matches!(decode_hook(&[2; 92]), Hook::AfterSwap(_)));
    assert!(matches!(decode_hook(&[5; 40]), Hook::Ignored));
    assert!(matches!(decode_hook(&[5; 41]), Hook::EpochBoundary(_)));
    assert!(matches!(decode_hook(&[0; 2000]), Hook::Ignored));
    assert!(matches!(decode_hook(&[1; 2000]), Hook::Ignored));
    assert!(matches!(decode_hook(&[3; 2000]), Hook::Ignored));
}

#[test]
fn adaptive_strategy_declares_no_model() {
    assert_eq!(get_model_used(), "None");
}

#[test]
fn corrupted_fee_is_not_quoted() {
    let mut st = empty_storage();
    write_u64(&mut st, S_BID_FEE, 1_000_000_000_000_000_001);
    write_u64(&mut st, S_ASK_FEE, 1_000_000_000_000_000_000);
    let (rx, ry) = (100 * SCALE, 10_000 * SCALE);
    let buy = request(true, SCALE, rx, ry, &st);
    let sell = request(false, SCALE, rx, ry, &st);
    assert_eq!(checked_compute_swap(&buy), None);
    // a fee of the whole leaves nothing of the input
    assert_eq!(checked_compute_swap(&sell), Some(0));
    write_u64(&mut st, S_BID_FEE, bps_to_wad(30));
    let buy = request(true, SCALE, rx, ry, &st);
    assert_eq!(checked_compute_swap(&buy), Some(9_969_006));
}
