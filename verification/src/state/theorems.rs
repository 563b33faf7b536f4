//! What holds of the margin account's arithmetic for every input.

use crate::common::math::{
    lemma_div_mul_round_trip, lemma_mul_bits_decreasing, lemma_mul_bits_increasing,
    lemma_unit_multiplier, rounding_allowance, ONE_BITS,
};
use crate::errors::ZodError;
use crate::state::margin::{
    spec_actual, spec_position, spec_rescaled, spec_slot_value, spec_weight_fraction, ZodMargin,
};
use crate::state::state::{MarketCache, ZodState};
use crate::zod_types::{spec_safe_add, Symbol, WrappedI80F48};
use vstd::prelude::*;

verus! {

/// The larger of the rounding allowances of the two multipliers.
pub open spec fn spec_allowance(
    supply_multiplier: WrappedI80F48,
    borrow_multiplier: WrappedI80F48,
) -> int {
    if rounding_allowance(supply_multiplier@) >= rounding_allowance(borrow_multiplier@) {
        rounding_allowance(supply_multiplier@)
    } else {
        rounding_allowance(borrow_multiplier@)
    }
}

/// A change of a balance by an actual amount shows in the actual balance.
///
/// Under positive multipliers, the actual amount after the change is the
/// actual amount before plus the change, up to the rounding allowance of
/// the multiplier that the new amount is stored with, and the rounding
/// never moves the amount away from zero. The sign of the stored balance
/// follows the sign of the new amount.
pub proof fn theorem_change_shows_in_actual(
    balance: WrappedI80F48,
    amount: WrappedI80F48,
    supply_multiplier: WrappedI80F48,
    borrow_multiplier: WrappedI80F48,
)
    requires
        supply_multiplier@ > 0,
        borrow_multiplier@ > 0,
        spec_rescaled(balance, amount, supply_multiplier, borrow_multiplier) is Ok,
    ensures
        ({
            let before = spec_actual(balance, supply_multiplier, borrow_multiplier).unwrap();
            let stored = spec_rescaled(
                balance,
                amount,
                supply_multiplier,
                borrow_multiplier,
            ).unwrap();
            let after = spec_actual(stored, supply_multiplier, borrow_multiplier);
            let target = before@ + amount@;
            &&& after is Ok
            &&& target >= 0 ==> stored@ >= 0 && target - rounding_allowance(supply_multiplier@)
                <= after.unwrap()@ <= target
            &&& target < 0 ==> stored@ <= 0 && target <= after.unwrap()@ <= target
                + rounding_allowance(borrow_multiplier@)
        }),
{
    let before = spec_actual(balance, supply_multiplier, borrow_multiplier).unwrap();
    let target = before@ + amount@;
    if target >= 0 {
        lemma_div_mul_round_trip(target, supply_multiplier@);
    } else {
        lemma_div_mul_round_trip(target, borrow_multiplier@);
        let stored = spec_rescaled(balance, amount, supply_multiplier, borrow_multiplier).unwrap();
        if stored@ == 0 {
            assert(0 * supply_multiplier@ == 0 && 0 * borrow_multiplier@ == 0) by (nonlinear_arith);
        }
    }
}

/// With both multipliers at exactly 1, a change of a balance shows in the
/// actual balance without any rounding.
pub proof fn theorem_change_is_exact_at_unit_multiplier(
    balance: WrappedI80F48,
    amount: WrappedI80F48,
    one: WrappedI80F48,
)
    requires
        one@ == ONE_BITS,
        spec_rescaled(balance, amount, one, one) is Ok,
    ensures
        spec_actual(spec_rescaled(balance, amount, one, one).unwrap(), one, one)
            == Ok::<WrappedI80F48, ZodError>(WrappedI80F48 { data: (balance@ + amount@) as i128 }),
{
    lemma_unit_multiplier(balance@);
    lemma_unit_multiplier(balance@ + amount@);
}

/// A change followed by its exact inverse restores the actual balance.
///
/// Under positive multipliers, the actual amount after the two changes
/// differs from the actual amount before them by at most the rounding
/// allowances of the two conversions to scaled units.
pub proof fn theorem_inverse_change_restores(
    balance: WrappedI80F48,
    amount: WrappedI80F48,
    inverse: WrappedI80F48,
    supply_multiplier: WrappedI80F48,
    borrow_multiplier: WrappedI80F48,
)
    requires
        supply_multiplier@ > 0,
        borrow_multiplier@ > 0,
        inverse@ == -amount@,
        spec_rescaled(balance, amount, supply_multiplier, borrow_multiplier) is Ok,
        spec_rescaled(
            spec_rescaled(balance, amount, supply_multiplier, borrow_multiplier).unwrap(),
            inverse,
            supply_multiplier,
            borrow_multiplier,
        ) is Ok,
    ensures
        ({
            let before = spec_actual(balance, supply_multiplier, borrow_multiplier).unwrap();
            let changed = spec_rescaled(
                balance,
                amount,
                supply_multiplier,
                borrow_multiplier,
            ).unwrap();
            let restored = spec_rescaled(
                changed,
                inverse,
                supply_multiplier,
                borrow_multiplier,
            ).unwrap();
            let after = spec_actual(restored, supply_multiplier, borrow_multiplier);
            let allowance = spec_allowance(supply_multiplier, borrow_multiplier);
            &&& after is Ok
            &&& before@ - 2 * allowance <= after.unwrap()@ <= before@ + 2 * allowance
            &&& supply_multiplier@ == ONE_BITS && borrow_multiplier@ == ONE_BITS
                ==> after.unwrap()@ == before@
        }),
{
    let changed = spec_rescaled(balance, amount, supply_multiplier, borrow_multiplier).unwrap();
    theorem_change_shows_in_actual(balance, amount, supply_multiplier, borrow_multiplier);
    theorem_change_shows_in_actual(changed, inverse, supply_multiplier, borrow_multiplier);
    if supply_multiplier@ == ONE_BITS && borrow_multiplier@ == ONE_BITS {
        theorem_change_is_exact_at_unit_multiplier(balance, amount, supply_multiplier);
        theorem_change_is_exact_at_unit_multiplier(changed, inverse, supply_multiplier);
        lemma_unit_multiplier(balance@);
    }
}

/// The balance after a sequence of changes, applied in order under the
/// same multipliers.
pub open spec fn spec_rescaled_all(
    balance: WrappedI80F48,
    amounts: Seq<WrappedI80F48>,
    supply_multiplier: WrappedI80F48,
    borrow_multiplier: WrappedI80F48,
) -> Result<WrappedI80F48, ZodError>
    decreases amounts.len(),
{
    if amounts.len() == 0 {
        Ok(balance)
    } else {
        match spec_rescaled_all(
            balance,
            amounts.drop_last(),
            supply_multiplier,
            borrow_multiplier,
        ) {
            Err(e) => Err(e),
            Ok(b) => spec_rescaled(b, amounts.last(), supply_multiplier, borrow_multiplier),
        }
    }
}

/// The sum of a sequence of amounts.
pub open spec fn spec_sum(amounts: Seq<WrappedI80F48>) -> int
    decreases amounts.len(),
{
    if amounts.len() == 0 {
        0
    } else {
        spec_sum(amounts.drop_last()) + amounts.last()@
    }
}

/// After any sequence of deposits and withdrawals the actual balance is
/// the actual balance before plus the sum of the changes, up to one
/// rounding allowance for each change.
pub proof fn theorem_changes_add_up(
    balance: WrappedI80F48,
    amounts: Seq<WrappedI80F48>,
    supply_multiplier: WrappedI80F48,
    borrow_multiplier: WrappedI80F48,
)
    requires
        supply_multiplier@ > 0,
        borrow_multiplier@ > 0,
        spec_actual(balance, supply_multiplier, borrow_multiplier) is Ok,
        spec_rescaled_all(balance, amounts, supply_multiplier, borrow_multiplier) is Ok,
    ensures
        ({
            let before = spec_actual(balance, supply_multiplier, borrow_multiplier).unwrap();
            let stored = spec_rescaled_all(
                balance,
                amounts,
                supply_multiplier,
                borrow_multiplier,
            ).unwrap();
            let after = spec_actual(stored, supply_multiplier, borrow_multiplier);
            let allowance = spec_allowance(supply_multiplier, borrow_multiplier);
            let target = before@ + spec_sum(amounts);
            &&& after is Ok
            &&& target - amounts.len() * allowance <= after.unwrap()@ <= target + amounts.len()
                * allowance
        }),
    decreases amounts.len(),
{
    let allowance = spec_allowance(supply_multiplier, borrow_multiplier);
    if amounts.len() == 0 {
        assert(amounts.len() * allowance == 0) by (nonlinear_arith)
            requires
                amounts.len() == 0,
        ;
    } else {
        let head = amounts.drop_last();
        theorem_changes_add_up(balance, head, supply_multiplier, borrow_multiplier);
        let mid = spec_rescaled_all(balance, head, supply_multiplier, borrow_multiplier).unwrap();
        theorem_change_shows_in_actual(mid, amounts.last(), supply_multiplier, borrow_multiplier);
        assert(amounts.len() * allowance == head.len() * allowance + allowance)
            by (nonlinear_arith)
            requires
                amounts.len() == head.len() + 1,
        ;
        assert(allowance >= 0);
    }
}

/// One deposit or withdrawal, with the multipliers in effect at the time.
pub struct Change {
    pub amount: WrappedI80F48,
    pub supply_multiplier: WrappedI80F48,
    pub borrow_multiplier: WrappedI80F48,
}

/// The balance after a sequence of changes, each applied under its own
/// multipliers.
pub open spec fn spec_after_changes(balance: WrappedI80F48, changes: Seq<Change>) -> Result<
    WrappedI80F48,
    ZodError,
>
    decreases changes.len(),
{
    if changes.len() == 0 {
        Ok(balance)
    } else {
        match spec_after_changes(balance, changes.drop_last()) {
            Err(e) => Err(e),
            Ok(b) => spec_rescaled(
                b,
                changes.last().amount,
                changes.last().supply_multiplier,
                changes.last().borrow_multiplier,
            ),
        }
    }
}

/// The sum of the amounts of a sequence of changes.
pub open spec fn spec_total_amount(changes: Seq<Change>) -> int
    decreases changes.len(),
{
    if changes.len() == 0 {
        0
    } else {
        spec_total_amount(changes.drop_last()) + changes.last().amount@
    }
}

/// The sum of the rounding allowances of a sequence of changes.
pub open spec fn spec_total_allowance(changes: Seq<Change>) -> int
    decreases changes.len(),
{
    if changes.len() == 0 {
        0
    } else {
        spec_total_allowance(changes.drop_last()) + spec_allowance(
            changes.last().supply_multiplier,
            changes.last().borrow_multiplier,
        )
    }
}

/// The sum, over a sequence of changes, of what each change does to the
/// actual balance: the actual balance after it less the actual balance
/// before it, both under the multipliers of that change.
pub open spec fn spec_observed_change(balance: WrappedI80F48, changes: Seq<Change>) -> int
    decreases changes.len(),
{
    if changes.len() == 0 {
        0
    } else {
        let last = changes.last();
        let found = spec_after_changes(balance, changes.drop_last()).unwrap();
        let left = spec_after_changes(balance, changes).unwrap();
        spec_observed_change(balance, changes.drop_last()) + (spec_actual(
            left,
            last.supply_multiplier,
            last.borrow_multiplier,
        ).unwrap()@ - spec_actual(found, last.supply_multiplier, last.borrow_multiplier).unwrap()@)
    }
}

/// Whatever the multipliers are from one call to the next, the changes
/// that a sequence of deposits and withdrawals makes to the actual balance
/// add up to the sum of the amounts, up to one rounding allowance for each
/// call.
pub proof fn theorem_observed_changes_add_up(balance: WrappedI80F48, changes: Seq<Change>)
    requires
        forall|k: int|
            0 <= k < changes.len() ==> (#[trigger] changes[k]).supply_multiplier@ > 0
                && changes[k].borrow_multiplier@ > 0,
        spec_after_changes(balance, changes) is Ok,
    ensures
        spec_total_amount(changes) - spec_total_allowance(changes) <= spec_observed_change(
            balance,
            changes,
        ) <= spec_total_amount(changes) + spec_total_allowance(changes),
        spec_total_allowance(changes) >= 0,
    decreases changes.len(),
{
    if changes.len() > 0 {
        let head = changes.drop_last();
        let last = changes.last();
        assert forall|k: int| 0 <= k < head.len() implies (#[trigger] head[k]).supply_multiplier@
            > 0 && head[k].borrow_multiplier@ > 0 by {
            assert(head[k] == changes[k]);
        }
        theorem_observed_changes_add_up(balance, head);
        let found = spec_after_changes(balance, head).unwrap();
        theorem_change_shows_in_actual(
            found,
            last.amount,
            last.supply_multiplier,
            last.borrow_multiplier,
        );
    }
}

/// Whether two snapshots agree in everything but the price that oracle
/// entry `k` reports.
pub open spec fn spec_differ_in_price_only(low: MarketCache, high: MarketCache, k: int) -> bool {
    &&& low.borrow_cache == high.borrow_cache
    &&& forall|j: int|
        0 <= j < 25 ==> (#[trigger] low.oracles[j]).symbol == high.oracles[j].symbol
            && low.oracles[j].is_stale == high.oracles[j].is_stale
    &&& forall|j: int|
        0 <= j < 25 && j != k ==> (#[trigger] low.oracles[j]).price == high.oracles[j].price
}

/// Whether the collateral in catalog slot `i` is valued at the price of
/// oracle entry `k`.
pub open spec fn spec_priced_by(state: ZodState, cache: MarketCache, i: int, k: int) -> bool {
    cache.spec_oracle_index(state.collaterals[i].oracle_symbol, 0) == Some(k)
}

proof fn lemma_same_symbols_same_index(
    low: MarketCache,
    high: MarketCache,
    symbol: Symbol,
    from: int,
)
    requires
        forall|j: int| 0 <= j < 25 ==> (#[trigger] low.oracles[j]).symbol == high.oracles[j].symbol,
    ensures
        low.spec_oracle_index(symbol, from) == high.spec_oracle_index(symbol, from),
    decreases 25 - from,
{
    if 0 <= from < 25 {
        assert(low.oracles[from].symbol == high.oracles[from].symbol);
        lemma_same_symbols_same_index(low, high, symbol, from + 1);
    }
}

proof fn lemma_oracle_index_in_bounds(cache: MarketCache, symbol: Symbol, from: int)
    requires
        0 <= from,
    ensures
        cache.spec_oracle_index(symbol, from) is Some ==> from <= cache.spec_oracle_index(
            symbol,
            from,
        ).unwrap() < 25,
    decreases 25 - from,
{
    if from < 25 {
        lemma_oracle_index_in_bounds(cache, symbol, from + 1);
    }
}

/// What one slot adds to a valuation, under two snapshots that differ in
/// one price only: the same if the slot is valued at another price; not
/// less under the higher price if its balance is not negative; not more if
/// its balance is negative.
proof fn lemma_slot_value_follows_price(
    margin: ZodMargin,
    state: ZodState,
    low: MarketCache,
    high: MarketCache,
    k: int,
    is_weighted: bool,
    i: int,
)
    requires
        0 <= k < 25,
        0 <= i < 25,
        spec_differ_in_price_only(low, high, k),
        low.oracles[k].price@ <= high.oracles[k].price@,
        low.borrow_cache[i].supply_multiplier@ >= 0,
    ensures
        ({
            let v_low = spec_slot_value(
                margin.collateral[i],
                state.collaterals[i],
                low.borrow_cache[i],
                low,
                is_weighted,
            );
            let v_high = spec_slot_value(
                margin.collateral[i],
                state.collaterals[i],
                high.borrow_cache[i],
                high,
                is_weighted,
            );
            &&& !spec_priced_by(state, low, i, k) ==> v_low == v_high
            &&& v_low is Ok && v_high is Ok && margin.collateral[i]@ >= 0 ==> v_low.unwrap()@
                <= v_high.unwrap()@
            &&& v_low is Ok && v_high is Ok && margin.collateral[i]@ < 0 ==> v_low.unwrap()@
                >= v_high.unwrap()@
        }),
{
    let balance = margin.collateral[i];
    let info = state.collaterals[i];
    let index = low.borrow_cache[i];
    lemma_same_symbols_same_index(low, high, info.oracle_symbol, 0);
    lemma_oracle_index_in_bounds(low, info.oracle_symbol, 0);
    let p_low = spec_position(balance, info, index, low);
    let p_high = spec_position(balance, info, index, high);
    if p_low is Ok && p_low.unwrap() is Some {
        let j = low.spec_oracle_index(info.oracle_symbol, 0).unwrap();
        assert(low.oracles[j].symbol == high.oracles[j].symbol);
        let (actual, price_low) = p_low.unwrap().unwrap();
        let (actual_high, price_high) = p_high.unwrap().unwrap();
        assert(actual == actual_high);
        if j != k {
            assert(low.oracles[j].price == high.oracles[j].price);
        } else {
            let fraction = spec_weight_fraction(info.weight as int);
            assert(0 <= fraction <= i128::MAX);
            if balance@ >= 0 {
                assert(0 <= balance@ * index.supply_multiplier@) by (nonlinear_arith)
                    requires
                        balance@ >= 0,
                        index.supply_multiplier@ >= 0,
                ;
                assert(actual@ >= 0);
                lemma_mul_bits_increasing(price_low@, price_high@, fraction);
                lemma_mul_bits_increasing(price_low@, price_high@, actual@);
                let w_low = crate::common::math::mul_bits(price_low@, fraction);
                let w_high = crate::common::math::mul_bits(price_high@, fraction);
                lemma_mul_bits_increasing(w_low, w_high, actual@);
            } else {
                assert(balance@ * index.supply_multiplier@ <= 0) by (nonlinear_arith)
                    requires
                        balance@ < 0,
                        index.supply_multiplier@ >= 0,
                ;
                assert(actual@ <= 0);
                lemma_mul_bits_decreasing(price_low@, price_high@, actual@);
                if actual@ == 0 {
                    let w_low = crate::common::math::mul_bits(price_low@, fraction);
                    let w_high = crate::common::math::mul_bits(price_high@, fraction);
                    assert(w_low * 0 == 0 && w_high * 0 == 0) by (nonlinear_arith);
                }
            }
        }
    } else {
        if p_low is Ok {
            assert(p_high == p_low);
        } else {
            assert(p_high is Err);
            assert(p_high == p_low);
        }
    }
}

proof fn lemma_total_from_follows_price(
    margin: ZodMargin,
    state: ZodState,
    low: MarketCache,
    high: MarketCache,
    k: int,
    is_weighted: bool,
    rising: bool,
    i: int,
    acc_low: WrappedI80F48,
    acc_high: WrappedI80F48,
)
    requires
        0 <= k < 25,
        0 <= i,
        spec_differ_in_price_only(low, high, k),
        low.oracles[k].price@ <= high.oracles[k].price@,
        forall|n: int|
            0 <= n < state.spec_slots() && #[trigger] spec_priced_by(state, low, n, k) ==> (
            low.borrow_cache[n].supply_multiplier@ >= 0 && (margin.collateral[n]@ >= 0
                <==> rising)),
        rising ==> acc_low@ <= acc_high@,
        !rising ==> acc_low@ >= acc_high@,
        margin.spec_total_value_from(state, low, is_weighted, i, acc_low) is Ok,
        margin.spec_total_value_from(state, high, is_weighted, i, acc_high) is Ok,
    ensures
        rising ==> margin.spec_total_value_from(state, low, is_weighted, i, acc_low).unwrap()@
            <= margin.spec_total_value_from(state, high, is_weighted, i, acc_high).unwrap()@,
        !rising ==> margin.spec_total_value_from(state, low, is_weighted, i, acc_low).unwrap()@
            >= margin.spec_total_value_from(state, high, is_weighted, i, acc_high).unwrap()@,
    decreases 25 - i,
{
    if i < state.spec_slots() {
        let v_low = spec_slot_value(
            margin.collateral[i],
            state.collaterals[i],
            low.borrow_cache[i],
            low,
            is_weighted,
        );
        let v_high = spec_slot_value(
            margin.collateral[i],
            state.collaterals[i],
            high.borrow_cache[i],
            high,
            is_weighted,
        );
        assert(low.borrow_cache[i] == high.borrow_cache[i]);
        if spec_priced_by(state, low, i, k) {
            lemma_slot_value_follows_price(margin, state, low, high, k, is_weighted, i);
        } else {
            lemma_slot_value_unpriced(margin, state, low, high, k, is_weighted, i);
        }
        let sum_low = spec_safe_add(acc_low, v_low.unwrap()).unwrap();
        let sum_high = spec_safe_add(acc_high, v_high.unwrap()).unwrap();
        lemma_total_from_follows_price(
            margin,
            state,
            low,
            high,
            k,
            is_weighted,
            rising,
            i + 1,
            sum_low,
            sum_high,
        );
    }
}

/// A slot that is valued at another price adds the same under both
/// snapshots.
proof fn lemma_slot_value_unpriced(
    margin: ZodMargin,
    state: ZodState,
    low: MarketCache,
    high: MarketCache,
    k: int,
    is_weighted: bool,
    i: int,
)
    requires
        0 <= k < 25,
        0 <= i < 25,
        spec_differ_in_price_only(low, high, k),
        !spec_priced_by(state, low, i, k),
    ensures
        spec_slot_value(
            margin.collateral[i],
            state.collaterals[i],
            low.borrow_cache[i],
            low,
            is_weighted,
        ) == spec_slot_value(
            margin.collateral[i],
            state.collaterals[i],
            high.borrow_cache[i],
            high,
            is_weighted,
        ),
{
    let info = state.collaterals[i];
    lemma_same_symbols_same_index(low, high, info.oracle_symbol, 0);
    lemma_oracle_index_in_bounds(low, info.oracle_symbol, 0);
    if low.spec_oracle_index(info.oracle_symbol, 0) is Some {
        let j = low.spec_oracle_index(info.oracle_symbol, 0).unwrap();
        assert(low.oracles[j].symbol == high.oracles[j].symbol);
        assert(low.oracles[j].price == high.oracles[j].price);
    }
}

/// The value of all collateral does not fall when one price rises, as long
/// as every balance valued at that price is not negative.
///
/// `low` and `high` agree in everything but the price of oracle entry `k`,
/// which is not lower in `high`. The supply multipliers of the slots
/// valued at that price are not negative.
pub proof fn theorem_value_rises_with_price(
    margin: ZodMargin,
    state: ZodState,
    low: MarketCache,
    high: MarketCache,
    k: int,
    is_weighted: bool,
)
    requires
        0 <= k < 25,
        spec_differ_in_price_only(low, high, k),
        low.oracles[k].price@ <= high.oracles[k].price@,
        forall|n: int|
            0 <= n < state.spec_slots() && #[trigger] spec_priced_by(state, low, n, k) ==> (
            low.borrow_cache[n].supply_multiplier@ >= 0 && margin.collateral[n]@ >= 0),
        margin.spec_total_collateral_value(state, low, is_weighted) is Ok,
        margin.spec_total_collateral_value(state, high, is_weighted) is Ok,
    ensures
        margin.spec_total_collateral_value(state, low, is_weighted).unwrap()@
            <= margin.spec_total_collateral_value(state, high, is_weighted).unwrap()@,
{
    let zero = WrappedI80F48 { data: 0 };
    lemma_total_from_follows_price(margin, state, low, high, k, is_weighted, true, 0, zero, zero);
}

/// The value of all collateral does not rise when one price rises, as long
/// as every balance valued at that price is negative (borrowed).
///
/// `low` and `high` agree in everything but the price of oracle entry `k`,
/// which is not lower in `high`. The supply multipliers of the slots
/// valued at that price are not negative.
pub proof fn theorem_value_falls_with_price_of_borrowed(
    margin: ZodMargin,
    state: ZodState,
    low: MarketCache,
    high: MarketCache,
    k: int,
    is_weighted: bool,
)
    requires
        0 <= k < 25,
        spec_differ_in_price_only(low, high, k),
        low.oracles[k].price@ <= high.oracles[k].price@,
        forall|n: int|
            0 <= n < state.spec_slots() && #[trigger] spec_priced_by(state, low, n, k) ==> (
            low.borrow_cache[n].supply_multiplier@ >= 0 && margin.collateral[n]@ < 0),
        margin.spec_total_collateral_value(state, low, is_weighted) is Ok,
        margin.spec_total_collateral_value(state, high, is_weighted) is Ok,
    ensures
        margin.spec_total_collateral_value(state, low, is_weighted).unwrap()@
            >= margin.spec_total_collateral_value(state, high, is_weighted).unwrap()@,
{
    let zero = WrappedI80F48 { data: 0 };
    lemma_total_from_follows_price(margin, state, low, high, k, is_weighted, false, 0, zero, zero);
}

} // verus!
