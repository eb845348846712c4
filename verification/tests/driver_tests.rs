use prop_amm_engine::sim::{epoch_number, is_epoch_boundary, Action, Driver, Scheduled};
use prop_amm_engine::strategy::{
    adaptive_fees, epoch_fee, Standing, BASE_FEE_WAD, FLOOR_FEE_WAD, MAX_VOL_PREMIUM_BPS,
};
use prop_amm_engine::fixed_point::{bps_to_wad, MAX_FEE_WAD};

fn run(total_steps: usize, epoch_len: usize, n: usize) -> Vec<Scheduled> {
    let mut driver = Driver::new(total_steps, epoch_len, n);
    let mut out = Vec::new();
    loop {
        let s = driver.next();
        if s.action == Action::Finish {
            break;
        }
        out.push(s);
        assert!(out.len() <= total_steps * (n + 4), "driver does not finish");
    }
    // once over, it stays over
    assert_eq!(driver.next().action, Action::Finish);
    assert_eq!(driver.next().step, total_steps);
    out
}

#[test]
fn driver_orders_a_step() {
    let actions = run(1, 1, 3);
    let expect = vec![
        Scheduled { step: 0, action: Action::AdvancePrice },
        Scheduled { step: 0, action: Action::Arbitrage(0) },
        Scheduled { step: 0, action: Action::Arbitrage(1) },
        Scheduled { step: 0, action: Action::Arbitrage(2) },
        Scheduled { step: 0, action: Action::ArbitrageNormalizer },
        Scheduled { step: 0, action: Action::RouteRetail },
    ];
    assert_eq!(actions, expect);
}

#[test]
fn driver_rebalances_between_epochs_only() {
    let actions = run(6, 2, 1);
    let steps_and_actions: Vec<(usize, Action)> =
        actions.iter().map(|s| (s.step, s.action)).collect();
    let mut expect = Vec::new();
    for step in 0..6 {
        expect.push((step, Action::AdvancePrice));
        expect.push((step, Action::Arbitrage(0)));
        expect.push((step, Action::ArbitrageNormalizer));
        expect.push((step, Action::RouteRetail));
        if step == 1 {
            expect.push((1, Action::Rebalance(0)));
        }
        if step == 3 {
            expect.push((3, Action::Rebalance(1)));
        }
    }
    assert_eq!(steps_and_actions, expect);
}

#[test]
fn driver_with_no_strategies_or_no_steps() {
    let actions = run(2, 5, 0);
    let kinds: Vec<Action> = actions.iter().map(|s| s.action).collect();
    assert_eq!(
        kinds,
        vec![
            Action::AdvancePrice,
            Action::ArbitrageNormalizer,
            Action::RouteRetail,
            Action::AdvancePrice,
            Action::ArbitrageNormalizer,
            Action::RouteRetail,
        ]
    );
    assert!(run(0, 1, 4).is_empty());
}

#[test]
fn driver_agrees_with_the_schedule() {
    let runs = [(10usize, 3usize, 2usize), (9, 3, 1), (7, 1, 3), (5, 10, 2), (12, 4, 0)];
    for &(total, len, n) in &runs {
        let actions = run(total, len, n);
        let rebalances: Vec<(usize, usize)> = actions
            .iter()
            .filter_map(|s| match s.action {
                Action::Rebalance(e) => Some((s.step, e)),
                _ => None,
            })
            .collect();
        let expect: Vec<(usize, usize)> = (0..total)
            .filter(|&s| is_epoch_boundary(s, total, len))
            .map(|s| (s, epoch_number(s, len) as usize))
            .collect();
        assert_eq!(rebalances, expect);
        assert_eq!(rebalances.len(), (total - 1) / len);
        // every step arbitrages every pool once, in index order
        for step in 0..total {
            let arbs: Vec<usize> = actions
                .iter()
                .filter(|s| s.step == step)
                .filter_map(|s| match s.action {
                    Action::Arbitrage(i) => Some(i),
                    _ => None,
                })
                .collect();
            assert_eq!(arbs, (0..n).collect::<Vec<_>>());
        }
        assert_eq!(actions.len(), total * (n + 3) + (total - 1) / len);
    }
}

#[test]
fn default_run_has_nine_rebalances() {
    let mut driver = Driver::new(10_000, 1_000, 2);
    let mut epochs = Vec::new();
    loop {
        let s = driver.next();
        match s.action {
            Action::Finish => break,
            Action::Rebalance(e) => epochs.push((s.step, e)),
            _ => {}
        }
    }
    let expect: Vec<(usize, usize)> = (0..9).map(|e| (e * 1_000 + 999, e)).collect();
    assert_eq!(epochs, expect);
}

#[test]
fn adaptive_fees_exact_values() {
    let bps = |n: u64| bps_to_wad(n);
    assert_eq!(BASE_FEE_WAD, bps(30));
    // base 30 + premium 30; a buy widens the ask and narrows the bid
    assert_eq!(adaptive_fees(30, Standing::Level, true), (bps(55), bps(65)));
    assert_eq!(adaptive_fees(30, Standing::Level, false), (bps(65), bps(55)));
    assert_eq!(adaptive_fees(30, Standing::Behind, true), (bps(45), bps(55)));
    assert_eq!(adaptive_fees(30, Standing::Ahead, false), (bps(75), bps(65)));
    assert_eq!(adaptive_fees(0, Standing::Behind, true), (bps(15), bps(25)));
}

#[test]
fn adaptive_fees_cap_the_premium() {
    assert_eq!(MAX_VOL_PREMIUM_BPS, 200);
    assert_eq!(
        adaptive_fees(200, Standing::Ahead, true),
        (bps_to_wad(235), bps_to_wad(245))
    );
    assert_eq!(
        adaptive_fees(201, Standing::Ahead, true),
        adaptive_fees(200, Standing::Ahead, true)
    );
    assert_eq!(
        adaptive_fees(u64::MAX, Standing::Level, false),
        adaptive_fees(200, Standing::Level, false)
    );
    let (bid, ask) = adaptive_fees(200, Standing::Ahead, true);
    assert!(bid >= FLOOR_FEE_WAD && ask <= MAX_FEE_WAD);
}

#[test]
fn epoch_fee_moves_with_capital() {
    let bps = |n: u64| bps_to_wad(n);
    assert_eq!(epoch_fee(bps(30), Standing::Behind), bps(25));
    assert_eq!(epoch_fee(bps(30), Standing::Level), bps(30));
    assert_eq!(epoch_fee(bps(30), Standing::Ahead), bps(35));
    assert_eq!(epoch_fee(bps(5), Standing::Behind), bps(5));
    assert_eq!(epoch_fee(0, Standing::Level), bps(5));
    assert_eq!(epoch_fee(MAX_FEE_WAD, Standing::Ahead), MAX_FEE_WAD);
    assert_eq!(epoch_fee(u64::MAX, Standing::Behind), MAX_FEE_WAD);
}
