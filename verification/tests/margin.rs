use fixed::types::I80F48;
use std::mem::size_of;
use zod::config::DUST_THRESHOLD;
use zod::errors::ZodError;
use zod::instructions::{create_margin, init_state};
use zod::state::margin::{
    apply_delta, base_requirement, max_reducible, position, position_value, rescale, to_actual,
    weight_fraction, ZodMargin,
};
use zod::state::state::{BorrowIndex, MarketCache, OracleQuote, ZodCollateralInfo, ZodState};
use zod::zod_types::{Identity, Symbol, WrappedI80F48};

const ONE: i128 = 1i128 << 48;

fn num(v: f64) -> WrappedI80F48 {
    WrappedI80F48 { data: I80F48::from_num(v).to_bits() }
}

fn whole(n: i128) -> WrappedI80F48 {
    WrappedI80F48 { data: n * ONE }
}

fn key(b: u8) -> Identity {
    Identity { bytes: [b; 32] }
}

fn sym(name: &str) -> Symbol {
    Symbol::from_bytes(name.as_bytes()).unwrap()
}

fn asset(mint: u8, symbol: &str, weight: u16, liq_fee: u16) -> ZodCollateralInfo {
    let mut info = ZodCollateralInfo::default();
    info.mint = key(mint);
    info.oracle_symbol = sym(symbol);
    info.weight = weight;
    info.liq_fee = liq_fee;
    info.decimals = 6;
    info
}

fn state_with(assets: &[ZodCollateralInfo]) -> ZodState {
    let mut state = init_state::process(1, 2, key(200), key(201), key(202), key(203));
    for (i, a) in assets.iter().enumerate() {
        state.collaterals[i] = *a;
    }
    state
}

fn empty_cache() -> MarketCache {
    MarketCache {
        oracles: [OracleQuote { symbol: Symbol::default(), price: whole(0), is_stale: false }; 25],
        borrow_cache: [BorrowIndex { supply_multiplier: whole(1), borrow_multiplier: whole(1) }; 25],
    }
}

fn cache_with(prices: &[(&str, f64, bool)]) -> MarketCache {
    let mut cache = empty_cache();
    for (i, (name, price, stale)) in prices.iter().enumerate() {
        cache.oracles[i] = OracleQuote { symbol: sym(name), price: num(*price), is_stale: *stale };
    }
    cache
}

fn new_margin() -> ZodMargin {
    create_margin::process(7, key(100), key(101))
}

#[test]
fn get_state_size() {
    println!("size of state: {}", size_of::<ZodMargin>());
}

#[test]
fn mutate_adds_the_amount_at_unit_multipliers() {
    let mut m = new_margin();
    assert_eq!(m.mutate(3, whole(5), whole(1), whole(1)), Ok(()));
    assert_eq!(m.collateral[3], whole(5));
    assert_eq!(m.mutate(3, num(-1.5), whole(1), whole(1)), Ok(()));
    assert_eq!(m.collateral[3], num(3.5));
    for i in 0..25 {
        if i != 3 {
            assert_eq!(m.collateral[i], whole(0));
        }
    }
    assert_eq!(m.zod_balance, whole(0));
    assert_eq!(m.nonce, 7);
}

#[test]
fn mutate_stores_the_balance_in_scaled_units() {
    let mut m = new_margin();
    // 10 actual at a supply multiplier of 1.25 is 8 scaled
    assert_eq!(m.mutate(0, whole(10), num(1.25), num(2.0)), Ok(()));
    assert_eq!(m.collateral[0], whole(8));
    assert_eq!(m.get_actual_collateral(0, num(1.25)), Ok(whole(10)));
    // the multiplier grows to 1.5: the same 8 scaled are now 12; take 3 out
    assert_eq!(m.mutate(0, whole(-3), num(1.5), num(2.0)), Ok(()));
    assert_eq!(m.collateral[0], whole(6));
}

#[test]
fn mutate_uses_the_borrow_multiplier_below_zero() {
    let mut m = new_margin();
    // from zero to -10 actual: stored with the borrow multiplier 2 as -5
    assert_eq!(m.mutate(1, whole(-10), num(1.25), num(2.0)), Ok(()));
    assert_eq!(m.collateral[1], whole(-5));
    // -5 scaled is -10 actual; +4 gives -6 actual, -3 scaled
    assert_eq!(m.mutate(1, whole(4), num(1.25), num(2.0)), Ok(()));
    assert_eq!(m.collateral[1], whole(-3));
}

#[test]
fn mutate_switches_multiplier_when_the_sign_changes() {
    let mut m = new_margin();
    m.collateral[2] = whole(-5);
    // -5 scaled at borrow 2 is -10 actual; +15 gives 5 actual, stored at supply 1.25 as 4
    assert_eq!(m.mutate(2, whole(15), num(1.25), num(2.0)), Ok(()));
    assert_eq!(m.collateral[2], whole(4));
    // 4 scaled at supply 1.25 is 5 actual; -15 gives -10 actual, stored at borrow 2 as -5
    assert_eq!(m.mutate(2, whole(-15), num(1.25), num(2.0)), Ok(()));
    assert_eq!(m.collateral[2], whole(-5));
}

#[test]
fn mutate_to_exactly_zero_uses_the_supply_multiplier() {
    let mut m = new_margin();
    m.collateral[0] = whole(4);
    // the result is zero: it is divided by the supply multiplier, so a zero borrow multiplier is no obstacle
    assert_eq!(m.mutate(0, whole(-4), whole(1), whole(0)), Ok(()));
    assert_eq!(m.collateral[0], whole(0));
    // a zero balance is converted with the supply multiplier too
    let mut n = new_margin();
    assert_eq!(n.mutate(0, whole(0), whole(0), whole(1)), Err(ZodError::ArithmeticFailure));
}

#[test]
fn mutate_rejects_a_slot_beyond_the_catalog() {
    let mut m = new_margin();
    m.collateral[24] = whole(1);
    let before = m;
    assert_eq!(m.mutate(25, whole(5), whole(1), whole(1)), Err(ZodError::InvalidAsset));
    assert_eq!(m.mutate(usize::MAX, whole(5), whole(1), whole(1)), Err(ZodError::InvalidAsset));
    assert_eq!(m.collateral, before.collateral);
    assert_eq!(m.get_actual_collateral(25, whole(1)), Err(ZodError::InvalidAsset));
    assert_eq!(m.mutate(24, whole(5), whole(1), whole(1)), Ok(()));
    assert_eq!(m.collateral[24], whole(6));
}

#[test]
fn mutate_fails_without_a_change_on_overflow() {
    let mut m = new_margin();
    m.collateral[0] = WrappedI80F48 { data: i128::MAX };
    let before = m;
    // the conversion to actual overflows
    assert_eq!(m.mutate(0, whole(0), whole(2), whole(1)), Err(ZodError::ArithmeticFailure));
    assert_eq!(m.collateral, before.collateral);
    // the sum overflows
    assert_eq!(m.mutate(0, whole(1), whole(1), whole(1)), Err(ZodError::ArithmeticFailure));
    assert_eq!(m.collateral, before.collateral);
    // the conversion back divides by zero
    let mut n = new_margin();
    assert_eq!(n.mutate(0, whole(1), whole(0), whole(1)), Err(ZodError::ArithmeticFailure));
    assert_eq!(n.collateral[0], whole(0));
}

#[test]
fn get_actual_collateral_multiplies_by_the_supply_multiplier() {
    let mut m = new_margin();
    m.collateral[4] = whole(8);
    assert_eq!(m.get_actual_collateral(4, num(1.25)), Ok(whole(10)));
    m.collateral[4] = whole(-8);
    assert_eq!(m.get_actual_collateral(4, num(1.25)), Ok(whole(-10)));
    m.collateral[4] = WrappedI80F48 { data: i128::MAX };
    assert_eq!(m.get_actual_collateral(4, num(1.25)), Err(ZodError::ArithmeticFailure));
}

#[test]
fn zod_mutate_rescales_the_debt() {
    let mut m = new_margin();
    assert_eq!(m.zod_mutate(whole(500), whole(1)), Ok(()));
    assert_eq!(m.zod_balance, whole(500));
    assert_eq!(m.get_actual_zod_balance(whole(1)), Ok(whole(500)));
    // at a loss multiplier of 0.5 the same scaled debt is 250 actual
    assert_eq!(m.get_actual_zod_balance(num(0.5)), Ok(whole(250)));
    assert_eq!(m.zod_mutate(whole(50), num(0.5)), Ok(()));
    assert_eq!(m.zod_balance, whole(600));
    assert_eq!(m.zod_mutate(whole(1), whole(0)), Err(ZodError::ArithmeticFailure));
    assert_eq!(m.zod_balance, whole(600));
}

#[test]
fn bankrupt_clears_the_debt_only() {
    let mut m = new_margin();
    m.collateral[0] = whole(3);
    m.zod_balance = whole(9);
    assert_eq!(m.bankrupt(), Ok(()));
    assert_eq!(m.zod_balance, whole(0));
    assert_eq!(m.collateral[0], whole(3));
}

#[test]
fn weight_fraction_is_the_weight_over_a_thousand_rounded_down() {
    assert_eq!(weight_fraction(0).data, 0);
    assert_eq!(weight_fraction(1000).data, ONE);
    assert_eq!(weight_fraction(500).data, ONE / 2);
    assert_eq!(weight_fraction(900).data, 900 * ONE / 1000);
    assert_eq!(weight_fraction(900).data, 253_327_479_039_590);
    assert_eq!(weight_fraction(u16::MAX).data, 65_535 * ONE / 1000);
}

#[test]
fn base_requirement_is_the_requirement_over_the_weight_less_a_thousand() {
    assert_eq!(base_requirement(1_100_000, 900), Ok(222));
    assert_eq!(base_requirement(1_030_000, 900), Ok(144));
    assert_eq!(base_requirement(1_100_000, 1000), Ok(100));
    assert_eq!(base_requirement(1_100_000, 1100), Ok(0));
    assert_eq!(base_requirement(1_100_000, 1), Ok(1_099_000));
    assert_eq!(base_requirement(1_100_000, 0), Err(ZodError::ArithmeticFailure));
    assert_eq!(base_requirement(1_100_000, 1101), Err(ZodError::ArithmeticFailure));
}

#[test]
fn position_passes_over_empty_slots_and_zero_balances() {
    let cache = cache_with(&[("USDC", 1.0, false)]);
    let index = cache.borrow_cache[0];
    let usdc = asset(1, "USDC", 900, 0);
    assert_eq!(position(whole(0), &usdc, &index, &cache), Ok(None));
    assert_eq!(position(whole(5), &ZodCollateralInfo::default(), &index, &cache), Ok(None));
    assert_eq!(position(whole(5), &usdc, &index, &cache), Ok(Some((whole(5), whole(1)))));
    let unknown = asset(2, "BTC", 900, 0);
    assert_eq!(position(whole(5), &unknown, &index, &cache), Err(ZodError::InvalidAsset));
    let stale = cache_with(&[("USDC", 1.0, true)]);
    assert_eq!(position(whole(5), &usdc, &index, &stale), Err(ZodError::StaleOracle));
    // a stale price that is not consulted does no harm
    assert_eq!(position(whole(0), &usdc, &index, &stale), Ok(None));
}

#[test]
fn position_value_discounts_only_balances_that_are_not_negative() {
    let w = 900 * ONE / 1000;
    assert_eq!(position_value(whole(1000), whole(1), 900, true).unwrap().data, w * 1000);
    assert_eq!(position_value(whole(1000), whole(1), 900, false), Ok(whole(1000)));
    assert_eq!(position_value(whole(-1000), whole(1), 900, true), Ok(whole(-1000)));
    assert_eq!(position_value(whole(-1000), whole(2), 900, false), Ok(whole(-2000)));
    assert_eq!(position_value(whole(0), whole(2), 900, true), Ok(whole(0)));
    assert_eq!(
        position_value(WrappedI80F48 { data: i128::MAX }, whole(2), 900, false),
        Err(ZodError::ArithmeticFailure)
    );
}

#[test]
fn total_collateral_value_sums_the_slots() {
    let state = state_with(&[asset(1, "USDC", 1000, 0), asset(2, "BTC", 900, 10), asset(3, "SOL", 500, 10)]);
    let cache = cache_with(&[("SOL", 4.0, false), ("USDC", 1.0, false), ("BTC", 20.0, false)]);
    let mut m = new_margin();
    m.collateral[0] = whole(100);
    m.collateral[1] = whole(2);
    m.collateral[2] = whole(-10);
    // unweighted: 100 * 1 + 2 * 20 - 10 * 4
    assert_eq!(m.get_total_collateral_value(&state, &cache, false), Ok(whole(100)));
    assert_eq!(m.get_total_collateral_value_i64(&state, &cache, false), Ok(100));
    // weighted: 100 * 1 * 1.0 + 2 * (20 * 0.9) - 10 * 4, the borrowed SOL at full price
    let w900 = 900 * ONE / 1000;
    let btc = fixed_mul(fixed_mul(20 * ONE, w900), 2 * ONE);
    let expected = 100 * ONE + btc - 40 * ONE;
    assert_eq!(m.get_total_collateral_value(&state, &cache, true).unwrap().data, expected);
    // 96 less a rounding of a few ulps: rounded down to 95
    assert_eq!(m.get_total_collateral_value_i64(&state, &cache, true), Ok(95));
}

fn fixed_mul(a: i128, b: i128) -> i128 {
    I80F48::from_bits(a).checked_mul(I80F48::from_bits(b)).unwrap().to_bits()
}

#[test]
fn total_collateral_value_applies_the_supply_multiplier() {
    let state = state_with(&[asset(1, "USDC", 1000, 0)]);
    let mut cache = cache_with(&[("USDC", 2.0, false)]);
    cache.borrow_cache[0] = BorrowIndex { supply_multiplier: num(1.5), borrow_multiplier: num(3.0) };
    let mut m = new_margin();
    m.collateral[0] = whole(10);
    assert_eq!(m.get_total_collateral_value(&state, &cache, false), Ok(whole(30)));
    // a borrowed balance is converted with the supply multiplier as well
    m.collateral[0] = whole(-10);
    assert_eq!(m.get_total_collateral_value(&state, &cache, false), Ok(whole(-30)));
}

#[test]
fn total_collateral_value_fails_on_one_stale_price() {
    let state = state_with(&[asset(1, "USDC", 1000, 0), asset(2, "BTC", 900, 10)]);
    let cache = cache_with(&[("USDC", 1.0, false), ("BTC", 20.0, true)]);
    let mut m = new_margin();
    m.collateral[0] = whole(100);
    // the stale price is not consulted while the balance is zero
    assert_eq!(m.get_total_collateral_value(&state, &cache, true), Ok(whole(100)));
    m.collateral[1] = WrappedI80F48 { data: 1 };
    assert_eq!(m.get_total_collateral_value(&state, &cache, true), Err(ZodError::StaleOracle));
    assert_eq!(m.get_total_collateral_value(&state, &cache, false), Err(ZodError::StaleOracle));
    assert_eq!(m.get_total_collateral_value_i64(&state, &cache, false), Err(ZodError::StaleOracle));
    assert_eq!(m.get_omf(&state, &cache, true), Err(ZodError::StaleOracle));
}

#[test]
fn total_collateral_value_fails_on_an_unknown_symbol() {
    let state = state_with(&[asset(1, "USDC", 1000, 0), asset(2, "BTC", 900, 10)]);
    let cache = cache_with(&[("USDC", 1.0, false)]);
    let mut m = new_margin();
    m.collateral[1] = whole(1);
    assert_eq!(m.get_total_collateral_value(&state, &cache, true), Err(ZodError::InvalidAsset));
}

#[test]
fn total_collateral_value_stops_at_the_slots_in_use() {
    let mut state = state_with(&[asset(1, "USDC", 1000, 0), asset(2, "BTC", 1000, 10)]);
    let cache = cache_with(&[("USDC", 1.0, false), ("BTC", 20.0, false)]);
    let mut m = new_margin();
    m.collateral[0] = whole(100);
    m.collateral[1] = whole(2);
    // a balance in a slot without an asset counts for nothing
    m.collateral[5] = whole(1000);
    assert_eq!(m.get_total_collateral_value(&state, &cache, true), Ok(whole(140)));
    state.total_collaterals = 1;
    assert_eq!(m.get_total_collateral_value(&state, &cache, true), Ok(whole(100)));
    state.total_collaterals = 0;
    assert_eq!(m.get_total_collateral_value(&state, &cache, true), Ok(whole(0)));
    state.total_collaterals = 1000;
    assert_eq!(m.get_total_collateral_value(&state, &cache, true), Ok(whole(140)));
}

#[test]
fn total_collateral_value_fails_on_overflow() {
    let state = state_with(&[asset(1, "USDC", 1000, 0), asset(2, "BTC", 1000, 10)]);
    let cache = cache_with(&[("USDC", 1.0, false), ("BTC", 1.0, false)]);
    let mut m = new_margin();
    m.collateral[0] = WrappedI80F48 { data: i128::MAX };
    m.collateral[1] = WrappedI80F48 { data: 1 };
    assert_eq!(m.get_total_collateral_value(&state, &cache, true), Err(ZodError::ArithmeticFailure));
    m.collateral[1] = whole(0);
    assert_eq!(
        m.get_total_collateral_value(&state, &cache, false),
        Ok(WrappedI80F48 { data: i128::MAX })
    );
    assert_eq!(m.get_total_collateral_value_i64(&state, &cache, false), Err(ZodError::ArithmeticFailure));
}

#[test]
fn open_margin_fraction_of_weighted_collateral_less_debt() {
    // 1000 units of weight-900 collateral at a price of 1.0, a debt of 500
    let state = state_with(&[asset(1, "USDC", 900, 0)]);
    let cache = cache_with(&[("USDC", 1.0, false)]);
    let mut m = new_margin();
    m.collateral[0] = whole(1000);
    m.zod_balance = whole(500);
    let omf = m.get_omf(&state, &cache, true).unwrap();
    // (1000 * 0.9 - 500) * 1000 = 400000, with 0.9 rounded down to a multiple of 2^-48
    let w900 = 900 * ONE / 1000;
    assert_eq!(omf.data, (w900 * 1000 - 500 * ONE) * 1000);
    assert_eq!(omf.data, 400_000 * ONE - 400_000);
    let as_float = I80F48::from_bits(omf.data).to_num::<f64>();
    assert!((as_float - 400_000.0).abs() < 1e-6);
    // unweighted: (1000 - 500) * 1000
    assert_eq!(m.get_omf(&state, &cache, false), Ok(whole(500_000)));
}

#[test]
fn margin_fractions_scale_with_the_debt() {
    let state = state_with(&[asset(1, "USDC", 900, 0)]);
    let mut m = new_margin();
    m.zod_balance = whole(500);
    // the debt token has weight 900: base requirements 1100000/900 - 1000 = 222 and 1030000/900 - 1000 = 144
    assert_eq!(m.get_imf(&state), Ok(whole(222 * 500)));
    assert_eq!(m.get_mmf(&state), Ok(whole(144 * 500)));
    m.zod_balance = whole(0);
    assert_eq!(m.get_imf(&state), Ok(whole(0)));
    assert_eq!(m.get_mmf(&state), Ok(whole(0)));
    // the loss multiplier scales the debt
    let mut halved = state;
    halved.soc_loss_multiplier = num(0.5);
    m.zod_balance = whole(500);
    assert_eq!(m.get_imf(&halved), Ok(whole(222 * 250)));
}

#[test]
fn margin_fractions_fail_for_a_weight_without_requirement() {
    let mut state = state_with(&[]);
    let mut m = new_margin();
    m.zod_balance = whole(500);
    state.zod_token_info.weight = 0;
    assert_eq!(m.get_imf(&state), Err(ZodError::ArithmeticFailure));
    assert_eq!(m.get_mmf(&state), Err(ZodError::ArithmeticFailure));
    state.zod_token_info.weight = 1101;
    assert_eq!(m.get_imf(&state), Err(ZodError::ArithmeticFailure));
    state.zod_token_info.weight = 1031;
    assert_eq!(m.get_mmf(&state), Err(ZodError::ArithmeticFailure));
    assert_eq!(m.get_imf(&state), Ok(whole(66 * 500)));
}

#[test]
fn max_reducible_solves_for_the_debt_to_close() {
    let state = state_with(&[]);
    let m = new_margin();
    // (imf - omf) / (base_imf - num_lf) = (111000 - 70600) / (222 - 20) = 200
    assert_eq!(m.get_max_reducible(&state, whole(20), whole(111_000), whole(70_600)), Ok(whole(200)));
    // a fractional factor: (1000 - 0) / (222 - 21.5)
    let expected = I80F48::from_num(1000).checked_div(I80F48::from_num(200.5)).unwrap();
    assert_eq!(
        m.get_max_reducible(&state, num(21.5), whole(1000), whole(0)).unwrap().data,
        expected.to_bits()
    );
}

#[test]
fn max_reducible_needs_a_base_above_the_liquidation_factor() {
    let state = state_with(&[]);
    let m = new_margin();
    assert_eq!(
        m.get_max_reducible(&state, whole(222), whole(111_000), whole(70_600)),
        Err(ZodError::NotLiquidatable)
    );
    assert_eq!(
        m.get_max_reducible(&state, whole(500), whole(111_000), whole(70_600)),
        Err(ZodError::NotLiquidatable)
    );
    let just_below = WrappedI80F48 { data: 222 * ONE - 1 };
    // the denominator is one ulp
    assert_eq!(
        m.get_max_reducible(&state, just_below, whole(1), whole(0)),
        Ok(WrappedI80F48 { data: ONE * ONE })
    );
    assert_eq!(
        m.get_max_reducible(&state, just_below, whole(1i128 << 40), whole(0)),
        Err(ZodError::ArithmeticFailure)
    );
    assert_eq!(
        m.get_max_reducible(&state, just_below, whole(0), whole(0)),
        Ok(whole(0))
    );
    let mut no_weight = state;
    no_weight.zod_token_info.weight = 0;
    assert_eq!(
        m.get_max_reducible(&no_weight, whole(20), whole(1), whole(0)),
        Err(ZodError::ArithmeticFailure)
    );
}

#[test]
fn dust_check_compares_each_slot_with_the_threshold() {
    let state = state_with(&[asset(1, "USDC", 1000, 0), asset(2, "BTC", 900, 10)]);
    let cache = cache_with(&[("USDC", 1.0, false), ("BTC", 20.0, false)]);
    let mut m = new_margin();
    assert_eq!(m.has_no_col_above_dust(&state.collaterals, 25, &cache), Ok(true));
    // exactly the threshold is dust
    m.collateral[0] = whole(DUST_THRESHOLD as i128);
    assert_eq!(m.has_no_col_above_dust(&state.collaterals, 25, &cache), Ok(true));
    // a fraction above the threshold still rounds down to it
    m.collateral[0] = num(DUST_THRESHOLD as f64 + 0.5);
    assert_eq!(m.has_no_col_above_dust(&state.collaterals, 25, &cache), Ok(true));
    m.collateral[0] = whole(DUST_THRESHOLD as i128 + 1);
    assert_eq!(m.has_no_col_above_dust(&state.collaterals, 25, &cache), Ok(false));
    // each slot is judged on its own, unweighted: 2 * 50000 * 20 is above
    m.collateral[0] = whole(DUST_THRESHOLD as i128);
    m.collateral[1] = whole(50_000);
    assert_eq!(m.has_no_col_above_dust(&state.collaterals, 25, &cache), Ok(true));
    m.collateral[1] = whole(50_001);
    assert_eq!(m.has_no_col_above_dust(&state.collaterals, 25, &cache), Ok(false));
    // the slot is beyond those to look at
    assert_eq!(m.has_no_col_above_dust(&state.collaterals, 1, &cache), Ok(true));
    assert_eq!(m.has_no_col_above_dust(&state.collaterals, 0, &cache), Ok(true));
    // borrowed collateral is worth less than nothing
    m.collateral[1] = whole(-50_001);
    assert_eq!(m.has_no_col_above_dust(&state.collaterals, usize::MAX, &cache), Ok(true));
}

#[test]
fn dust_check_is_decided_by_the_first_slot_that_fails_or_exceeds() {
    let state = state_with(&[asset(1, "USDC", 1000, 0), asset(2, "BTC", 900, 10)]);
    let mut m = new_margin();
    m.collateral[0] = whole(2_000_000);
    m.collateral[1] = whole(1);
    let stale_second = cache_with(&[("USDC", 1.0, false), ("BTC", 20.0, true)]);
    assert_eq!(m.has_no_col_above_dust(&state.collaterals, 25, &stale_second), Ok(false));
    let stale_first = cache_with(&[("USDC", 1.0, true), ("BTC", 20.0, false)]);
    assert_eq!(
        m.has_no_col_above_dust(&state.collaterals, 25, &stale_first),
        Err(ZodError::StaleOracle)
    );
    m.collateral[0] = whole(1);
    assert_eq!(
        m.has_no_col_above_dust(&state.collaterals, 25, &stale_second),
        Err(ZodError::StaleOracle)
    );
    let unknown = cache_with(&[("USDC", 1.0, false)]);
    assert_eq!(
        m.has_no_col_above_dust(&state.collaterals, 25, &unknown),
        Err(ZodError::InvalidAsset)
    );
}

#[test]
fn dust_check_fails_on_a_value_beyond_64_bits() {
    let state = state_with(&[asset(1, "USDC", 1000, 0)]);
    let cache = cache_with(&[("USDC", 1.0, false)]);
    let mut m = new_margin();
    m.collateral[0] = WrappedI80F48 { data: (i64::MAX as i128 + 1) * ONE };
    assert_eq!(
        m.has_no_col_above_dust(&state.collaterals, 25, &cache),
        Err(ZodError::ArithmeticFailure)
    );
}

#[test]
fn to_actual_multiplies_by_the_multiplier() {
    assert_eq!(to_actual(whole(8), num(1.25)), Ok(whole(10)));
    assert_eq!(to_actual(whole(-8), num(1.25)), Ok(whole(-10)));
    assert_eq!(to_actual(whole(8), whole(0)), Ok(whole(0)));
    // rounded toward negative infinity
    assert_eq!(to_actual(WrappedI80F48 { data: 3 }, num(0.5)), Ok(WrappedI80F48 { data: 1 }));
    assert_eq!(to_actual(WrappedI80F48 { data: -3 }, num(0.5)), Ok(WrappedI80F48 { data: -2 }));
    assert_eq!(
        to_actual(WrappedI80F48 { data: i128::MAX }, whole(2)),
        Err(ZodError::ArithmeticFailure)
    );
}

#[test]
fn apply_delta_converts_with_the_multipliers_given() {
    // 8 scaled at 1.25 are 10 actual; 10 + 5 = 15 actual are 10 scaled at 1.5
    assert_eq!(apply_delta(whole(8), whole(5), num(1.25), num(1.5)), Ok(whole(10)));
    // 10 - 30 = -20 actual are -10 scaled at a multiplier of 2
    assert_eq!(apply_delta(whole(8), whole(-30), num(1.25), whole(2)), Ok(whole(-10)));
    assert_eq!(apply_delta(whole(8), whole(0), whole(1), whole(1)), Ok(whole(8)));
    assert_eq!(apply_delta(whole(8), whole(5), whole(1), whole(0)), Err(ZodError::ArithmeticFailure));
    assert_eq!(
        apply_delta(WrappedI80F48 { data: i128::MAX }, whole(5), whole(1), whole(1)),
        Err(ZodError::ArithmeticFailure)
    );
}

#[test]
fn rescale_picks_the_multiplier_by_sign() {
    assert_eq!(rescale(whole(8), whole(5), num(1.25), whole(2)), Ok(whole(12)));
    assert_eq!(rescale(whole(8), whole(-30), num(1.25), whole(2)), Ok(whole(-10)));
    assert_eq!(rescale(whole(-10), whole(30), num(1.25), whole(2)), Ok(whole(8)));
    assert_eq!(rescale(whole(-10), whole(4), num(1.25), whole(2)), Ok(whole(-8)));
    assert_eq!(rescale(whole(8), whole(-10), num(1.25), whole(0)), Ok(whole(0)));
    // the quotient is rounded toward zero on both sides
    assert_eq!(
        rescale(whole(0), WrappedI80F48 { data: 5 }, whole(2), whole(2)),
        Ok(WrappedI80F48 { data: 2 })
    );
    assert_eq!(
        rescale(whole(0), WrappedI80F48 { data: -5 }, whole(2), whole(2)),
        Ok(WrappedI80F48 { data: -2 })
    );
}

#[test]
fn max_reducible_is_what_the_account_method_returns() {
    let state = state_with(&[]);
    let m = new_margin();
    assert_eq!(
        max_reducible(&state, whole(20), whole(111_000), whole(70_600)),
        m.get_max_reducible(&state, whole(20), whole(111_000), whole(70_600))
    );
    assert_eq!(max_reducible(&state, whole(20), whole(111_000), whole(70_600)), Ok(whole(200)));
    // open margin above initial margin: nothing to reduce, the quotient is negative
    assert_eq!(max_reducible(&state, whole(20), whole(100), whole(302)), Ok(whole(-1)));
}
