use prop_amm_engine::context::{AfterSwapContext, EpochContext, SwapContext};
use prop_amm_engine::le::{get_u32_le, get_u64_le, put_u32_le, put_u64_le, u64_byte};
use prop_amm_engine::runner::{
    encode_after_swap_payload, encode_compute_swap_payload, encode_epoch_boundary_payload,
    write_storage, write_u32, write_u64, write_u8,
};
use prop_amm_engine::storage::{empty_storage, Storage};
use prop_amm_engine::types::{
    AfterSwapPayload, ComputeSwapPayload, EpochBoundaryPayload, AFTER_SWAP_WIRE_LEN,
    EPOCH_WIRE_LEN, QUOTE_WIRE_LEN, TAG_AFTER_SWAP, TAG_EPOCH_BOUNDARY, TAG_SWAP_BUY,
    TAG_SWAP_SELL, UNUSED_SPOT_BITS,
};

fn patterned_storage() -> Storage {
    let mut s = empty_storage();
    for (i, b) in s.iter_mut().enumerate() {
        *b = (i * 13 % 256) as u8;
    }
    s
}

fn sample_after_swap() -> AfterSwapPayload {
    AfterSwapPayload {
        tag: TAG_AFTER_SWAP,
        side: 1,
        input_amount: 0x0102_0304_0506_0708,
        output_amount: 0x1112_1314_1516_1718,
        reserve_x: 100_000_000_000,
        reserve_y: 10_000_000_000_000,
        sim_step: 9_999,
        epoch_step: 999,
        epoch_number: 9,
        n_strategies: 3,
        strategy_index: 1,
        flow_captured_bits: 0.25f32.to_bits(),
        capital_weight_bits: 0.5f32.to_bits(),
        competing_spot_price_bits: [
            100.0f32.to_bits(),
            101.5f32.to_bits(),
            UNUSED_SPOT_BITS,
            UNUSED_SPOT_BITS,
            UNUSED_SPOT_BITS,
            UNUSED_SPOT_BITS,
            UNUSED_SPOT_BITS,
            UNUSED_SPOT_BITS,
        ],
        storage: empty_storage(),
    }
}

#[test]
fn le_get_and_put_agree_with_std() {
    let mut buf = vec![0xAAu8; 32];
    put_u64_le(&mut buf, 3, 0x0123_4567_89AB_CDEF);
    put_u32_le(&mut buf, 20, 0xDEAD_BEEF);
    assert_eq!(&buf[3..11], &0x0123_4567_89AB_CDEFu64.to_le_bytes());
    assert_eq!(&buf[20..24], &0xDEAD_BEEFu32.to_le_bytes());
    assert_eq!(get_u64_le(&buf, 3), 0x0123_4567_89AB_CDEF);
    assert_eq!(get_u32_le(&buf, 20), 0xDEAD_BEEF);
    for (i, &b) in buf.iter().enumerate() {
        if !(3..11).contains(&i) && !(20..24).contains(&i) {
            assert_eq!(b, 0xAA);
        }
    }
    assert_eq!(get_u32_le(&buf, 0), u32::from_le_bytes(buf[0..4].try_into().unwrap()));
}

#[test]
fn u64_byte_picks_bytes_from_the_low_end() {
    let v = 0x0123_4567_89AB_CDEFu64;
    let bytes: Vec<u8> = (0..8).map(|i| u64_byte(v, i)).collect();
    assert_eq!(bytes, v.to_le_bytes().to_vec());
}

#[test]
fn cursor_writers_advance_by_their_width() {
    let mut buf = vec![0u8; 16];
    let mut off = 0usize;
    write_u8(&mut buf, &mut off, 7);
    assert_eq!(off, 1);
    write_u32(&mut buf, &mut off, 0x0403_0201);
    assert_eq!(off, 5);
    write_u64(&mut buf, &mut off, 0x0807_0605_0403_0201);
    assert_eq!(off, 13);
    assert_eq!(buf, vec![7, 1, 2, 3, 4, 1, 2, 3, 4, 5, 6, 7, 8, 0, 0, 0]);
}

#[test]
fn write_storage_copies_all_bytes() {
    let st = patterned_storage();
    let mut buf = vec![0xFFu8; 1024 + 10];
    write_storage(&mut buf, 5, &st);
    assert_eq!(&buf[5..1029], &st[..]);
    assert!(buf[..5].iter().all(|&b| b == 0xFF));
    assert!(buf[1029..].iter().all(|&b| b == 0xFF));
}

#[test]
fn quote_payload_layout() {
    let st = patterned_storage();
    let buf = encode_compute_swap_payload(true, 11, 22, 33, &st);
    assert_eq!(buf.len(), QUOTE_WIRE_LEN);
    assert_eq!(buf.len(), 1049);
    assert_eq!(buf[0], TAG_SWAP_BUY);
    assert_eq!(&buf[1..9], &11u64.to_le_bytes());
    assert_eq!(&buf[9..17], &22u64.to_le_bytes());
    assert_eq!(&buf[17..25], &33u64.to_le_bytes());
    assert_eq!(&buf[25..], &st[..]);
    let sell = encode_compute_swap_payload(false, u64::MAX, 0, 1, &st);
    assert_eq!(sell[0], TAG_SWAP_SELL);
    assert_eq!(&sell[1..9], &[0xFF; 8]);
}

#[test]
fn quote_payload_roundtrip() {
    let st = patterned_storage();
    let buf = encode_compute_swap_payload(false, 5_000_000_000, 100, 200, &st);
    let ctx = SwapContext::from_bytes(&buf).unwrap();
    assert!(!ctx.is_buy);
    assert_eq!(ctx.input_amount, 5_000_000_000);
    assert_eq!(ctx.reserve_x, 100);
    assert_eq!(ctx.reserve_y, 200);
    assert_eq!(ctx.storage, st);
    let buy = encode_compute_swap_payload(true, 1, 2, 3, &st);
    assert!(SwapContext::from_bytes(&buy).unwrap().is_buy);
}

#[test]
fn quote_payload_struct_holds_the_same_fields() {
    let p = ComputeSwapPayload {
        tag: TAG_SWAP_SELL,
        input_amount: 9,
        reserve_x: 8,
        reserve_y: 7,
        storage: patterned_storage(),
    };
    let buf = encode_compute_swap_payload(
        p.tag == TAG_SWAP_BUY,
        p.input_amount,
        p.reserve_x,
        p.reserve_y,
        &p.storage,
    );
    let ctx = SwapContext::from_bytes(&buf).unwrap();
    assert_eq!((ctx.is_buy, ctx.input_amount, ctx.reserve_x, ctx.reserve_y), (false, 9, 8, 7));
    assert_eq!(ctx.storage, p.storage);
}

#[test]
fn swap_context_rejects_short_buffers() {
    assert!(SwapContext::from_bytes(&[]).is_none());
    assert!(SwapContext::from_bytes(&vec![0u8; 1048]).is_none());
    assert!(SwapContext::from_bytes(&vec![0u8; 1049]).is_some());
    assert!(SwapContext::from_bytes(&vec![0u8; 2000]).is_some());
}

#[test]
fn after_swap_payload_layout() {
    let p = sample_after_swap();
    let st = patterned_storage();
    let mut buf = vec![0x55u8; 7];
    encode_after_swap_payload(&p, &st, &mut buf);
    assert_eq!(buf.len(), AFTER_SWAP_WIRE_LEN);
    assert_eq!(buf.len(), 92 + 1024);
    assert_eq!(buf[0], 2);
    assert_eq!(buf[1], 1);
    assert_eq!(&buf[2..10], &p.input_amount.to_le_bytes());
    assert_eq!(&buf[10..18], &p.output_amount.to_le_bytes());
    assert_eq!(&buf[18..26], &p.reserve_x.to_le_bytes());
    assert_eq!(&buf[26..34], &p.reserve_y.to_le_bytes());
    assert_eq!(&buf[34..42], &p.sim_step.to_le_bytes());
    assert_eq!(&buf[42..46], &p.epoch_step.to_le_bytes());
    assert_eq!(&buf[46..50], &p.epoch_number.to_le_bytes());
    assert_eq!(buf[50], 3);
    assert_eq!(buf[51], 1);
    assert_eq!(&buf[52..56], &0.25f32.to_le_bytes());
    assert_eq!(&buf[56..60], &0.5f32.to_le_bytes());
    for i in 0..8 {
        assert_eq!(
            &buf[60 + 4 * i..64 + 4 * i],
            &p.competing_spot_price_bits[i].to_le_bytes()
        );
    }
    assert_eq!(&buf[92..], &st[..]);
}

#[test]
fn after_swap_payload_takes_storage_from_the_argument() {
    let mut p = sample_after_swap();
    p.storage = [0xEE; 1024];
    let st = patterned_storage();
    let mut buf = Vec::new();
    encode_after_swap_payload(&p, &st, &mut buf);
    assert_eq!(&buf[92..], &st[..]);
}

#[test]
fn after_swap_roundtrip() {
    let p = sample_after_swap();
    let mut buf = Vec::new();
    encode_after_swap_payload(&p, &empty_storage(), &mut buf);
    let ctx = AfterSwapContext::from_bytes(&buf).unwrap();
    assert!(!ctx.is_buy);
    assert_eq!(ctx.input_amount, p.input_amount);
    assert_eq!(ctx.output_amount, p.output_amount);
    assert_eq!(ctx.reserve_x, p.reserve_x);
    assert_eq!(ctx.reserve_y, p.reserve_y);
    assert_eq!(ctx.sim_step, p.sim_step);
    assert_eq!(ctx.epoch_step, p.epoch_step);
    assert_eq!(ctx.epoch_number, p.epoch_number);
    assert_eq!(ctx.n_strategies, p.n_strategies);
    assert_eq!(ctx.strategy_index, p.strategy_index);
    assert_eq!(f32::from_bits(ctx.flow_captured_bits), 0.25);
    assert_eq!(f32::from_bits(ctx.capital_weight_bits), 0.5);
    assert_eq!(ctx.competing_spot_price_bits, p.competing_spot_price_bits);
    assert_eq!(f32::from_bits(ctx.competing_spot_price_bits[1]), 101.5);
    assert!(f32::from_bits(ctx.competing_spot_price_bits[2]).is_nan());
}

#[test]
fn after_swap_context_needs_only_the_header() {
    let p = sample_after_swap();
    let mut buf = Vec::new();
    encode_after_swap_payload(&p, &empty_storage(), &mut buf);
    assert!(AfterSwapContext::from_bytes(&buf[..91]).is_none());
    let ctx = AfterSwapContext::from_bytes(&buf[..92]).unwrap();
    assert_eq!(ctx.sim_step, 9_999);
    assert!(AfterSwapContext::from_bytes(&[]).is_none());
}

#[test]
fn epoch_boundary_payload_layout() {
    let p = EpochBoundaryPayload {
        tag: 0,
        epoch_number: 4,
        new_reserve_x: 123_456_789,
        new_reserve_y: 987_654_321_000,
        epoch_edge_bits: 12.5f64.to_bits(),
        cumulative_edge_bits: (-3.0f64).to_bits(),
        capital_weight_bits: 0.25f32.to_bits(),
        storage: empty_storage(),
    };
    let st = patterned_storage();
    let mut buf = vec![1u8; 5000];
    encode_epoch_boundary_payload(&p, &st, &mut buf);
    assert_eq!(buf.len(), EPOCH_WIRE_LEN);
    assert_eq!(buf.len(), 41 + 1024);
    assert_eq!(buf[0], TAG_EPOCH_BOUNDARY);
    assert_eq!(buf[0], 5);
    assert_eq!(&buf[1..5], &4u32.to_le_bytes());
    assert_eq!(&buf[5..13], &123_456_789u64.to_le_bytes());
    assert_eq!(&buf[13..21], &987_654_321_000u64.to_le_bytes());
    assert_eq!(&buf[21..29], &12.5f64.to_le_bytes());
    assert_eq!(&buf[29..37], &(-3.0f64).to_le_bytes());
    assert_eq!(&buf[37..41], &0.25f32.to_le_bytes());
    assert_eq!(&buf[41..], &st[..]);
}

#[test]
fn epoch_boundary_roundtrip() {
    let p = EpochBoundaryPayload {
        tag: TAG_EPOCH_BOUNDARY,
        epoch_number: u32::MAX,
        new_reserve_x: u64::MAX,
        new_reserve_y: 1,
        epoch_edge_bits: 12.5f64.to_bits(),
        cumulative_edge_bits: (-3.0f64).to_bits(),
        capital_weight_bits: 0.25f32.to_bits(),
        storage: empty_storage(),
    };
    let mut buf = Vec::new();
    encode_epoch_boundary_payload(&p, &empty_storage(), &mut buf);
    let ctx = EpochContext::from_bytes(&buf).unwrap();
    assert_eq!(ctx.epoch_number, u32::MAX);
    assert_eq!(ctx.new_reserve_x, u64::MAX);
    assert_eq!(ctx.new_reserve_y, 1);
    assert_eq!(f64::from_bits(ctx.epoch_edge_bits), 12.5);
    assert_eq!(f64::from_bits(ctx.cumulative_edge_bits), -3.0);
    assert_eq!(f32::from_bits(ctx.capital_weight_bits), 0.25);
    assert!(EpochContext::from_bytes(&buf[..40]).is_none());
    assert!(EpochContext::from_bytes(&buf[..41]).is_some());
}
