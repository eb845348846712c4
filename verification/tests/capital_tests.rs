use prop_amm_engine::capital::{
    rebalance_pool, rebalance_reserves, reserve_y_for_capital, summarize_epoch, total_capital_y,
    Allocation,
};
use prop_amm_engine::types::{AmmState, SCALE};

fn four_pools() -> Vec<AmmState> {
    (0..4)
        .map(|i| {
            let mut a = AmmState::new(100 * SCALE, 10_000 * SCALE, i as u8, &format!("S{i}"));
            a.epoch_edge_bits = [200.0f64, 100.0, 50.0, -30.0][i].to_bits();
            a.cumulative_edge_bits = (i as f64 * 10.0).to_bits();
            a.epoch_trade_count = 10 + i as u64;
            a.storage[i] = 1 + i as u8;
            a
        })
        .collect()
}

#[test]
fn total_capital_is_twice_the_y_reserves() {
    assert_eq!(total_capital_y(&four_pools()), 80_000 * SCALE as u128);
    assert_eq!(total_capital_y(&[]), 0);
    let big = vec![
        AmmState::new(1, u64::MAX, 0, "a"),
        AmmState::new(1, u64::MAX, 1, "b"),
    ];
    assert_eq!(total_capital_y(&big), 4 * u64::MAX as u128);
}

#[test]
fn reserve_is_half_the_capital_with_a_floor() {
    assert_eq!(reserve_y_for_capital(20_000 * SCALE as u128), 10_000 * SCALE);
    assert_eq!(reserve_y_for_capital(2 * SCALE as u128 + 1), SCALE);
    assert_eq!(reserve_y_for_capital(2 * SCALE as u128 + 2), SCALE + 1);
    assert_eq!(reserve_y_for_capital(0), SCALE);
    assert_eq!(reserve_y_for_capital(2 * SCALE as u128 - 1), SCALE);
    assert_eq!(reserve_y_for_capital(7 * SCALE as u128), 3 * SCALE + SCALE / 2);
}

#[test]
fn reserve_is_held_at_the_largest_u64() {
    assert_eq!(reserve_y_for_capital(2 * u64::MAX as u128), u64::MAX);
    assert_eq!(reserve_y_for_capital(2 * u64::MAX as u128 + 2), u64::MAX);
    assert_eq!(reserve_y_for_capital(u128::MAX), u64::MAX);
}

#[test]
fn rebalance_pool_installs_and_resets() {
    let mut a = four_pools().remove(3);
    let alloc = Allocation {
        target_capital_y: 8_000 * SCALE as u128,
        reserve_x: 40 * SCALE,
        capital_weight_bits: 0.1f64.to_bits(),
    };
    rebalance_pool(&mut a, &alloc);
    assert_eq!(a.reserve_y, 4_000 * SCALE);
    assert_eq!(a.reserve_x, 40 * SCALE);
    assert_eq!(f64::from_bits(a.capital_weight_bits), 0.1);
    assert_eq!(a.epoch_trade_count, 0);
    assert_eq!(f64::from_bits(a.epoch_edge_bits), 0.0);
    assert_eq!(f64::from_bits(a.cumulative_edge_bits), 30.0);
    assert_eq!(a.storage[3], 4);
    assert_eq!(a.strategy_index, 3);
    assert_eq!(a.name, "S3");
}

#[test]
fn rebalance_pool_floors_both_reserves() {
    let mut a = AmmState::new(5, 5, 0, "tiny");
    let alloc = Allocation { target_capital_y: 10, reserve_x: 0, capital_weight_bits: 0 };
    rebalance_pool(&mut a, &alloc);
    assert_eq!(a.reserve_y, SCALE);
    assert_eq!(a.reserve_x, 1);
}

#[test]
fn rebalance_reserves_conserves_allotted_capital() {
    let mut amms = four_pools();
    let total = total_capital_y(&amms);
    let weights = [0.4f64, 0.3, 0.2, 0.1];
    let allocations: Vec<Allocation> = weights
        .iter()
        .map(|&w| Allocation {
            target_capital_y: (total as f64 * w) as u128,
            reserve_x: 1,
            capital_weight_bits: w.to_bits(),
        })
        .collect();
    let allotted: u128 = allocations.iter().map(|a| a.target_capital_y).sum();
    rebalance_reserves(&mut amms, &allocations);
    let after = total_capital_y(&amms);
    assert!(after <= allotted);
    assert!(after + 4 >= allotted);
    for (i, amm) in amms.iter().enumerate() {
        assert_eq!(amm.epoch_trade_count, 0);
        assert_eq!(f64::from_bits(amm.epoch_edge_bits), 0.0);
        assert_eq!(f64::from_bits(amm.capital_weight_bits), weights[i]);
        assert_eq!(f64::from_bits(amm.cumulative_edge_bits), i as f64 * 10.0);
        assert_eq!(amm.storage[i], 1 + i as u8);
        assert!(amm.reserve_x >= 1 && amm.reserve_y >= SCALE);
    }
    assert_eq!(amms[0].reserve_y, 16_000 * SCALE);
    assert_eq!(amms[3].reserve_y, 4_000 * SCALE);
}

#[test]
fn rebalance_restores_a_drained_pool() {
    let mut amms = vec![AmmState::new(0, 0, 0, "drained")];
    let allocations = [Allocation { target_capital_y: 0, reserve_x: 0, capital_weight_bits: 0 }];
    rebalance_reserves(&mut amms, &allocations);
    assert!(amms[0].reserve_x >= 1);
    assert!(amms[0].reserve_y >= 1);
}

#[test]
fn summary_takes_edge_and_count_from_the_pool() {
    let a = four_pools().remove(1);
    let s = summarize_epoch(&a, 6, (-0.0f64).to_bits(), 100.0f64.to_bits(), 100.0f64.to_bits());
    assert_eq!(s.epoch_number, 6);
    assert_eq!(f64::from_bits(s.edge_bits), 100.0);
    assert_eq!(s.trade_count, 11);
    assert_eq!(s.arb_losses_bits, (-0.0f64).to_bits());
    assert_eq!(f64::from_bits(s.retail_gains_bits), 100.0);
    assert_eq!(f64::from_bits(s.risk_adjusted_score_bits), 100.0);
}
