use fixed::types::I80F48;
use zod::instructions::{create_margin, init_state};
use zod::state::margin::ZodMargin;
use zod::state::state::{BorrowIndex, MarketCache, OracleQuote, ZodCollateralInfo, ZodState};
use zod::zod_types::{Identity, Symbol, WrappedI80F48};

const ONE: i128 = 1i128 << 48;

fn num(v: f64) -> WrappedI80F48 {
    WrappedI80F48 { data: I80F48::from_num(v).to_bits() }
}

fn whole(n: i128) -> WrappedI80F48 {
    WrappedI80F48 { data: n * ONE }
}

fn key(b: u8) -> Identity {
    Identity { bytes: [b; 32] }
}

fn sym(name: &str) -> Symbol {
    Symbol::from_bytes(name.as_bytes()).unwrap()
}

fn new_margin() -> ZodMargin {
    create_margin::process(7, key(100), key(101))
}

fn actual(m: &ZodMargin, supply: WrappedI80F48, borrow: WrappedI80F48) -> i128 {
    let b = m.collateral[0];
    let multiplier = if b.data >= 0 { supply } else { borrow };
    b.safe_mul(multiplier).unwrap().data
}

fn allowance(multiplier: WrappedI80F48) -> i128 {
    (multiplier.data + ONE - 1).div_euclid(ONE)
}

fn market(price: f64) -> (ZodState, MarketCache) {
    let mut state = init_state::process(1, 2, key(200), key(201), key(202), key(203));
    let mut usdc = ZodCollateralInfo::default();
    usdc.mint = key(1);
    usdc.oracle_symbol = sym("USDC");
    usdc.weight = 1000;
    let mut btc = ZodCollateralInfo::default();
    btc.mint = key(2);
    btc.oracle_symbol = sym("BTC");
    btc.weight = 873;
    state.collaterals[0] = usdc;
    state.collaterals[1] = btc;
    let mut cache = MarketCache {
        oracles: [OracleQuote { symbol: Symbol::default(), price: whole(0), is_stale: false }; 25],
        borrow_cache: [BorrowIndex { supply_multiplier: num(1.07), borrow_multiplier: num(1.31) }; 25],
    };
    cache.oracles[0] = OracleQuote { symbol: sym("USDC"), price: whole(1), is_stale: false };
    cache.oracles[1] = OracleQuote { symbol: sym("BTC"), price: num(price), is_stale: false };
    (state, cache)
}

#[test]
fn a_change_shows_in_the_actual_balance_up_to_the_allowance() {
    let supply = num(1.37);
    let borrow = num(2.61);
    let deltas = [100.25, -40.5, -70.0, 3.3333, -0.0001, 250.0, -500.75, 260.0];
    let mut m = new_margin();
    for d in deltas {
        let before = actual(&m, supply, borrow);
        let amount = num(d);
        assert_eq!(m.mutate(0, amount, supply, borrow), Ok(()));
        let after = actual(&m, supply, borrow);
        let target = before + amount.data;
        if target >= 0 {
            assert!(m.collateral[0].data >= 0);
            assert!(target - allowance(supply) <= after && after <= target);
        } else {
            assert!(m.collateral[0].data <= 0);
            assert!(target <= after && after <= target + allowance(borrow));
        }
    }
}

#[test]
fn changes_add_up_to_their_sum() {
    let supply = num(1.000_123);
    let borrow = num(1.000_456);
    let deltas = [1000.0, -1.5, 0.123_456, -998.0, -3.0, 7.25, 1e-9, -5.0];
    let mut m = new_margin();
    let mut sum: i128 = 0;
    for d in deltas {
        let amount = num(d);
        sum += amount.data;
        assert_eq!(m.mutate(0, amount, supply, borrow), Ok(()));
    }
    let drift = actual(&m, supply, borrow) - sum;
    let bound = deltas.len() as i128 * allowance(supply).max(allowance(borrow));
    assert!(-bound <= drift && drift <= bound);
}

#[test]
fn changes_add_up_exactly_at_unit_multipliers() {
    let one = whole(1);
    let deltas = [1000.0, -1.5, 0.123_456, -998.0, -3.0, 7.25, 1e-9, -5.0];
    let mut m = new_margin();
    let mut sum: i128 = 0;
    for d in deltas {
        let amount = num(d);
        sum += amount.data;
        assert_eq!(m.mutate(0, amount, one, one), Ok(()));
        assert_eq!(actual(&m, one, one), sum);
    }
}

#[test]
fn the_inverse_change_restores_the_balance() {
    let supply = num(1.37);
    let borrow = num(2.61);
    for start in [0.0, 12.5, 1e6, -12.5, -3e5] {
        for d in [0.0, 1.0, -1.0, 17.123, -17.123, 2e6, -2e6] {
            let mut m = new_margin();
            m.collateral[0] = num(start);
            let before = actual(&m, supply, borrow);
            let amount = num(d);
            assert_eq!(m.mutate(0, amount, supply, borrow), Ok(()));
            assert_eq!(m.mutate(0, amount.safe_neg().unwrap(), supply, borrow), Ok(()));
            let after = actual(&m, supply, borrow);
            let bound = 2 * allowance(supply).max(allowance(borrow));
            assert!(before - bound <= after && after <= before + bound);
        }
    }
}

#[test]
fn the_inverse_change_restores_exactly_at_unit_multipliers() {
    let one = whole(1);
    for start in [0.0, 12.5, -12.5] {
        for d in [17.123, -17.123, 2e6, -2e6] {
            let mut m = new_margin();
            m.collateral[0] = num(start);
            let before = m.collateral[0];
            assert_eq!(m.mutate(0, num(d), one, one), Ok(()));
            assert_eq!(m.mutate(0, num(-d), one, one), Ok(()));
            assert_eq!(m.collateral[0], before);
        }
    }
}

#[test]
fn the_value_of_supplied_collateral_rises_with_its_price() {
    let prices = [0.0, 0.000_001, 1.0, 49.99, 50.0, 50.01, 1e6];
    let mut m = new_margin();
    m.collateral[0] = whole(100);
    m.collateral[1] = num(3.75);
    for weighted in [true, false] {
        let mut last: Option<WrappedI80F48> = None;
        for p in prices {
            let (state, cache) = market(p);
            let value = m.get_total_collateral_value(&state, &cache, weighted).unwrap();
            if let Some(l) = last {
                assert!(l.data <= value.data);
            }
            last = Some(value);
        }
    }
}

#[test]
fn the_value_of_borrowed_collateral_falls_with_its_price() {
    let prices = [0.0, 0.000_001, 1.0, 49.99, 50.0, 50.01, 1e6];
    let mut m = new_margin();
    m.collateral[0] = whole(100);
    m.collateral[1] = num(-3.75);
    for weighted in [true, false] {
        let mut last: Option<WrappedI80F48> = None;
        for p in prices {
            let (state, cache) = market(p);
            let value = m.get_total_collateral_value(&state, &cache, weighted).unwrap();
            if let Some(l) = last {
                assert!(l.data >= value.data);
            }
            last = Some(value);
        }
    }
}

#[test]
fn socialization_never_raises_the_loss_multiplier() {
    let mut state = init_state::process(1, 2, key(200), key(201), key(202), key(203));
    state.total_zod_borrowed = whole(1_000_000);
    let mut last = state.soc_loss_multiplier.data;
    for shortfall in [1i64, 10, 999, 123_456, 3, 500_000] {
        state.insurance = 0;
        assert_eq!(
            zod::instructions::settle_bankruptcy::absorb_loss(&mut state, shortfall),
            Ok(())
        );
        assert!(0 <= state.soc_loss_multiplier.data);
        assert!(state.soc_loss_multiplier.data <= last);
        last = state.soc_loss_multiplier.data;
    }
}

fn consistent(m: &ZodMargin, state: &ZodState) -> bool {
    (0..25).all(|i| {
        m.collateral[i].data == 0
            || (i < state.slots() && !state.collaterals[i].is_empty())
    })
}

#[test]
fn operations_keep_balances_in_listed_slots() {
    let (mut state, cache) = market(50.0);
    let mut a = new_margin();
    let mut b = new_margin();
    assert!(consistent(&a, &state));
    assert_eq!(zod::instructions::deposit::process(&state, &cache, &mut a, &key(2), 40), Ok(40));
    assert_eq!(zod::instructions::deposit::process(&state, &cache, &mut a, &key(1), 300), Ok(300));
    assert!(zod::instructions::deposit::process(&state, &cache, &mut a, &key(3), 300).is_err());
    assert!(consistent(&a, &state));
    assert_eq!(zod::instructions::mint::process(&mut state, &cache, &mut a, 1500), Ok(1500));
    assert_eq!(zod::instructions::withdraw::process(&state, &cache, &mut a, &key(1), 100), Ok(100));
    assert!(consistent(&a, &state));
    // the price of BTC falls: the account can be liquidated
    let (_, fallen) = market(10.0);
    let r = zod::instructions::liquidate::process(&mut state, &fallen, &mut a, &mut b, &key(1), 50);
    assert!(r.is_ok());
    assert!(consistent(&a, &state));
    assert!(consistent(&b, &state));
    assert!(b.collateral[0].data > 0);
    assert!(a.collateral[0].data >= 0);
}

#[test]
fn changes_add_up_whatever_the_multipliers_are() {
    // the multipliers change from call to call
    let calls = [
        (1000.0, 1.0, 1.0),
        (-1.5, 1.000_123, 1.000_456),
        (0.123_456, 1.25, 1.5),
        (-1500.0, 1.37, 2.61),
        (700.0, 1.38, 2.62),
        (7.25, 1.5, 3.0),
        (-5.0, 2.0, 3.5),
    ];
    let mut m = new_margin();
    let mut observed: i128 = 0;
    let mut amounts: i128 = 0;
    let mut bound: i128 = 0;
    for (d, supply, borrow) in calls {
        let (supply, borrow) = (num(supply), num(borrow));
        let before = actual(&m, supply, borrow);
        assert_eq!(m.mutate(0, num(d), supply, borrow), Ok(()));
        observed += actual(&m, supply, borrow) - before;
        amounts += num(d).data;
        bound += allowance(supply).max(allowance(borrow));
    }
    assert!(amounts - bound <= observed && observed <= amounts + bound);
}
