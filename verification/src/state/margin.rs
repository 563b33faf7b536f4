//! The per-user margin account and its valuations.

use crate::common::math::ONE_BITS;
use crate::config::{DUST_THRESHOLD, SPOT_INITIAL_MARGIN_REQ, SPOT_MAINT_MARGIN_REQ};
use crate::errors::ZodError;
use crate::state::state::{BorrowIndex, MarketCache, ZodCollateralInfo, ZodState};
use crate::zod_types::{
    spec_floor_to_i64, spec_safe_add, spec_safe_div, spec_safe_mul, spec_safe_sub, spec_whole,
    wrap_checked, Identity, WrappedI80F48,
};
use vstd::prelude::*;

verus! {

/// One user's collateral balances and debt, all in index-scaled units.
#[derive(Clone, Copy, Debug)]
pub struct ZodMargin {
    pub nonce: u8,
    pub authority: Identity,
    /// Index-aligned with the collateral catalog.
    pub collateral: [WrappedI80F48; 25],
    pub zod_token_account: Identity,
    /// Debt owed; positive when the user owes.
    pub zod_balance: WrappedI80F48,
}

/// The multiplier that converts `balance`: the supply side for a balance
/// that is not negative, the borrow side otherwise.
pub open spec fn spec_multiplier_for(
    balance: WrappedI80F48,
    supply_multiplier: WrappedI80F48,
    borrow_multiplier: WrappedI80F48,
) -> WrappedI80F48 {
    if balance@ >= 0 {
        supply_multiplier
    } else {
        borrow_multiplier
    }
}

/// The actual amount that the scaled `balance` stands for under the
/// multiplier of its sign.
pub open spec fn spec_actual(
    balance: WrappedI80F48,
    supply_multiplier: WrappedI80F48,
    borrow_multiplier: WrappedI80F48,
) -> Result<WrappedI80F48, ZodError> {
    spec_safe_mul(balance, spec_multiplier_for(balance, supply_multiplier, borrow_multiplier))
}

/// The scaled balance after the actual amount of `balance` changes by
/// `actual_delta`: converted to actual with the multiplier in effect
/// before the change, and back to scaled units with the multiplier in
/// effect after it.
pub open spec fn spec_apply_delta(
    balance: WrappedI80F48,
    actual_delta: WrappedI80F48,
    multiplier_before: WrappedI80F48,
    multiplier_after: WrappedI80F48,
) -> Result<WrappedI80F48, ZodError> {
    match spec_safe_mul(balance, multiplier_before) {
        Err(e) => Err(e),
        Ok(before) => match spec_safe_add(before, actual_delta) {
            Err(e) => Err(e),
            Ok(after) => spec_safe_div(after, multiplier_after),
        },
    }
}

/// The scaled balance after the actual amount of `balance` changes by
/// `amount`: converted to actual with the multiplier of its sign before the
/// change, and back with the multiplier of its sign after it.
pub open spec fn spec_rescaled(
    balance: WrappedI80F48,
    amount: WrappedI80F48,
    supply_multiplier: WrappedI80F48,
    borrow_multiplier: WrappedI80F48,
) -> Result<WrappedI80F48, ZodError> {
    match spec_actual(balance, supply_multiplier, borrow_multiplier) {
        Err(e) => Err(e),
        Ok(before) => match spec_safe_add(before, amount) {
            Err(e) => Err(e),
            Ok(after) => spec_safe_div(
                after,
                spec_multiplier_for(after, supply_multiplier, borrow_multiplier),
            ),
        },
    }
}

/// The actual amount that the scaled `balance` stands for under
/// `multiplier`.
pub fn to_actual(balance: WrappedI80F48, multiplier: WrappedI80F48) -> (r: Result<
    WrappedI80F48,
    ZodError,
>)
    ensures
        r == spec_safe_mul(balance, multiplier),
{
    balance.safe_mul(multiplier)
}

/// Changes the actual amount of the scaled `balance` by `actual_delta`,
/// under the multiplier in effect before the change and the one in effect
/// after it.
pub fn apply_delta(
    balance: WrappedI80F48,
    actual_delta: WrappedI80F48,
    multiplier_before: WrappedI80F48,
    multiplier_after: WrappedI80F48,
) -> (r: Result<WrappedI80F48, ZodError>)
    ensures
        r == spec_apply_delta(balance, actual_delta, multiplier_before, multiplier_after),
{
    to_actual(balance, multiplier_before)?.safe_add(actual_delta)?.safe_div(multiplier_after)
}

/// Changes the actual amount of the scaled `balance` by `amount`, each
/// conversion under the multiplier of the sign of what it converts: the
/// supply multiplier for an amount that is not negative, the borrow
/// multiplier otherwise.
pub fn rescale(
    balance: WrappedI80F48,
    amount: WrappedI80F48,
    supply_multiplier: WrappedI80F48,
    borrow_multiplier: WrappedI80F48,
) -> (r: Result<WrappedI80F48, ZodError>)
    ensures
        r == spec_rescaled(balance, amount, supply_multiplier, borrow_multiplier),
{
    let actual = if balance.data >= 0 {
        to_actual(balance, supply_multiplier)?
    } else {
        to_actual(balance, borrow_multiplier)?
    };
    let after = actual.safe_add(amount)?;
    if after.data >= 0 {
        after.safe_div(supply_multiplier)
    } else {
        after.safe_div(borrow_multiplier)
    }
}

/// The share of a price that counts for an asset of the given weight in
/// permil: `weight / 1000` as a fixed-point number, rounded down.
pub open spec fn spec_weight_fraction(weight: int) -> int {
    (weight * ONE_BITS) / 1000
}

/// The base margin requirement of an asset of the given weight, in permil:
/// `requirement / weight - 1000`. There is none for a weight of zero, nor
/// where the quotient is under 1000.
pub open spec fn spec_base_requirement(requirement: int, weight: int) -> Result<int, ZodError> {
    if weight <= 0 || requirement / weight < 1000 {
        Err(ZodError::ArithmeticFailure)
    } else {
        Ok(requirement / weight - 1000)
    }
}

/// The actual balance and the price of one collateral slot, or `None` for
/// a slot that valuations pass over: one with a zero balance or without an
/// asset. A stale price fails.
pub open spec fn spec_position(
    balance: WrappedI80F48,
    info: ZodCollateralInfo,
    index: BorrowIndex,
    cache: MarketCache,
) -> Result<Option<(WrappedI80F48, WrappedI80F48)>, ZodError> {
    if balance@ == 0 || info.spec_is_empty() {
        Ok(None)
    } else {
        match spec_safe_mul(balance, index.supply_multiplier) {
            Err(e) => Err(e),
            Ok(actual) => match cache.spec_get_oracle(info.oracle_symbol) {
                Err(e) => Err(e),
                Ok(oracle) => if oracle.is_stale {
                    Err(ZodError::StaleOracle)
                } else {
                    Ok(Some((actual, oracle.price)))
                },
            },
        }
    }
}

/// The value of an actual balance at a price. The price is discounted by
/// the asset's weight only when asked for and only for a balance that is
/// not negative.
pub open spec fn spec_position_value(
    actual: WrappedI80F48,
    price: WrappedI80F48,
    weight: u16,
    is_weighted: bool,
) -> Result<WrappedI80F48, ZodError> {
    if is_weighted && actual@ >= 0 {
        let fraction = WrappedI80F48 { data: spec_weight_fraction(weight as int) as i128 };
        match spec_safe_mul(price, fraction) {
            Err(e) => Err(e),
            Ok(weighted) => spec_safe_mul(weighted, actual),
        }
    } else {
        spec_safe_mul(price, actual)
    }
}

/// The value that one collateral slot adds to a valuation.
pub open spec fn spec_slot_value(
    balance: WrappedI80F48,
    info: ZodCollateralInfo,
    index: BorrowIndex,
    cache: MarketCache,
    is_weighted: bool,
) -> Result<WrappedI80F48, ZodError> {
    match spec_position(balance, info, index, cache) {
        Err(e) => Err(e),
        Ok(None) => Ok(WrappedI80F48 { data: 0 }),
        Ok(Some((actual, price))) => spec_position_value(actual, price, info.weight, is_weighted),
    }
}

/// Whether one collateral slot is worth more than the dust threshold:
/// its unweighted value, rounded down to a whole number, exceeds it.
pub open spec fn spec_slot_above_dust(
    balance: WrappedI80F48,
    info: ZodCollateralInfo,
    index: BorrowIndex,
    cache: MarketCache,
) -> Result<bool, ZodError> {
    match spec_position(balance, info, index, cache) {
        Err(e) => Err(e),
        Ok(None) => Ok(false),
        Ok(Some((actual, price))) => match spec_safe_mul(price, actual) {
            Err(e) => Err(e),
            Ok(value) => match spec_floor_to_i64(value) {
                Err(e) => Err(e),
                Ok(whole) => Ok(whole > DUST_THRESHOLD),
            },
        },
    }
}

/// `weight / 1000` as a fixed-point number, rounded down.
pub fn weight_fraction(weight: u16) -> (r: WrappedI80F48)
    ensures
        r@ == spec_weight_fraction(weight as int),
{
    let w = WrappedI80F48::from_int(weight as i128);
    let k = WrappedI80F48::from_int(1000);
    match (w, k) {
        (Ok(w), Ok(k)) => match w.safe_div(k) {
            Ok(f) => f,
            Err(_) => WrappedI80F48::zero(),
        },
        _ => WrappedI80F48::zero(),
    }
}

/// The base margin requirement of an asset of the given weight.
pub fn base_requirement(requirement: u32, weight: u16) -> (r: Result<u32, ZodError>)
    ensures
        match spec_base_requirement(requirement as int, weight as int) {
            Ok(b) => r == Ok::<u32, ZodError>(b as u32) && b <= u32::MAX,
            Err(e) => r == Err::<u32, ZodError>(e),
        },
{
    if weight == 0 {
        return Err(ZodError::ArithmeticFailure);
    }
    let q: u32 = requirement / (weight as u32);
    if q < 1000 {
        Err(ZodError::ArithmeticFailure)
    } else {
        Ok(q - 1000)
    }
}

impl ZodMargin {
    /// Whether `self` is `before` with the balance of collateral slot
    /// `index` and the debt replaced.
    pub open spec fn is_update_of(
        self,
        before: ZodMargin,
        index: int,
        balance: WrappedI80F48,
        zod_balance: WrappedI80F48,
    ) -> bool {
        &&& self.collateral@ == before.collateral@.update(index, balance)
        &&& self.zod_balance == zod_balance
        &&& self.nonce == before.nonce
        &&& self.authority == before.authority
        &&& self.zod_token_account == before.zod_token_account
    }

    /// Whether every collateral balance that is not zero lies in a catalog
    /// slot in use that holds an asset.
    pub open spec fn spec_consistent_with(self, state: ZodState) -> bool {
        forall|i: int| 0 <= i < 25 && self.collateral[i]@ != 0 ==> state.spec_is_listed(i)
    }

    /// `self` with the balance of collateral slot `index` replaced.
    pub open spec fn with_collateral(self, index: int, balance: WrappedI80F48) -> ZodMargin {
        ZodMargin {
            collateral: vstd::array::spec_array_update(self.collateral, index, balance),
            ..self
        }
    }

    /// The valuation of the slots from `i` on, added to `acc` in slot order.
    pub open spec fn spec_total_value_from(
        self,
        state: ZodState,
        cache: MarketCache,
        is_weighted: bool,
        i: int,
        acc: WrappedI80F48,
    ) -> Result<WrappedI80F48, ZodError>
        decreases 25 - i,
    {
        if i < 0 || i >= state.spec_slots() {
            Ok(acc)
        } else {
            match spec_slot_value(
                self.collateral[i],
                state.collaterals[i],
                cache.borrow_cache[i],
                cache,
                is_weighted,
            ) {
                Err(e) => Err(e),
                Ok(v) => match spec_safe_add(acc, v) {
                    Err(e) => Err(e),
                    Ok(sum) => self.spec_total_value_from(state, cache, is_weighted, i + 1, sum),
                },
            }
        }
    }

    /// The value of all collateral: the sum over the catalog slots in use,
    /// in slot order, of what each slot adds.
    pub open spec fn spec_total_collateral_value(
        self,
        state: ZodState,
        cache: MarketCache,
        is_weighted: bool,
    ) -> Result<WrappedI80F48, ZodError> {
        self.spec_total_value_from(state, cache, is_weighted, 0, WrappedI80F48 { data: 0 })
    }

    /// Whether none of the slots from `i` on, among the first `max_col`, is
    /// worth more than the dust threshold. The first slot in slot order
    /// that fails or exceeds the threshold decides.
    pub open spec fn spec_no_dust_from(
        self,
        col_infos: [ZodCollateralInfo; 25],
        max_col: int,
        cache: MarketCache,
        i: int,
    ) -> Result<bool, ZodError>
        decreases 25 - i,
    {
        if i < 0 || i >= 25 || i >= max_col {
            Ok(true)
        } else {
            match spec_slot_above_dust(
                self.collateral[i],
                col_infos[i],
                cache.borrow_cache[i],
                cache,
            ) {
                Err(e) => Err(e),
                Ok(true) => Ok(false),
                Ok(false) => self.spec_no_dust_from(col_infos, max_col, cache, i + 1),
            }
        }
    }

    /// The debt in actual units.
    pub open spec fn spec_actual_zod_balance(
        self,
        soc_loss_multiplier: WrappedI80F48,
    ) -> Result<WrappedI80F48, ZodError> {
        spec_safe_mul(self.zod_balance, soc_loss_multiplier)
    }

    /// The open margin fraction: collateral value less debt, times 1000.
    pub open spec fn spec_omf(
        self,
        state: ZodState,
        cache: MarketCache,
        is_weighted: bool,
    ) -> Result<WrappedI80F48, ZodError> {
        match self.spec_total_collateral_value(state, cache, is_weighted) {
            Err(e) => Err(e),
            Ok(total) => match self.spec_actual_zod_balance(state.soc_loss_multiplier) {
                Err(e) => Err(e),
                Ok(debt) => match spec_safe_sub(total, debt) {
                    Err(e) => Err(e),
                    Ok(net) => spec_safe_mul(net, spec_whole(1000)),
                },
            },
        }
    }

    /// The margin budget for a requirement: the base requirement of the
    /// debt token's weight times the actual debt.
    pub open spec fn spec_margin_requirement(self, state: ZodState, requirement: int) -> Result<
        WrappedI80F48,
        ZodError,
    > {
        match spec_base_requirement(requirement, state.zod_token_info.weight as int) {
            Err(e) => Err(e),
            Ok(base) => match self.spec_actual_zod_balance(state.soc_loss_multiplier) {
                Err(e) => Err(e),
                Ok(debt) => spec_safe_mul(spec_whole(base), debt),
            },
        }
    }

    /// The initial margin fraction.
    pub open spec fn spec_imf(self, state: ZodState) -> Result<WrappedI80F48, ZodError> {
        self.spec_margin_requirement(state, SPOT_INITIAL_MARGIN_REQ as int)
    }

    /// The maintenance margin fraction.
    pub open spec fn spec_mmf(self, state: ZodState) -> Result<WrappedI80F48, ZodError> {
        self.spec_margin_requirement(state, SPOT_MAINT_MARGIN_REQ as int)
    }

    /// The debt that may be closed to bring the account back to its
    /// initial margin: `(imf - omf) / (base_imf - num_lf)`, where `base_imf`
    /// is the base initial requirement of the debt token and `num_lf` the
    /// net liquidation factor. The base must exceed the factor.
    pub open spec fn spec_max_reducible(
        state: ZodState,
        num_lf: WrappedI80F48,
        imf: WrappedI80F48,
        omf: WrappedI80F48,
    ) -> Result<WrappedI80F48, ZodError> {
        match spec_base_requirement(
            SPOT_INITIAL_MARGIN_REQ as int,
            state.zod_token_info.weight as int,
        ) {
            Err(e) => Err(e),
            Ok(base) => if base * ONE_BITS > num_lf@ {
                match spec_safe_sub(imf, omf) {
                    Err(e) => Err(e),
                    Ok(numerator) => match wrap_checked(base * ONE_BITS - num_lf@) {
                        Err(e) => Err(e),
                        Ok(denominator) => spec_safe_div(numerator, denominator),
                    },
                }
            } else {
                Err(ZodError::NotLiquidatable)
            },
        }
    }

    /// Clears the debt. The collateral stays as it is.
    pub fn bankrupt(&mut self) -> (r: Result<(), ZodError>)
        ensures
            r is Ok,
            *final(self) == (ZodMargin { zod_balance: WrappedI80F48 { data: 0 }, ..*old(self) }),
    {
        self.zod_balance = WrappedI80F48::zero();
        Ok(())
    }

    /// Changes the actual amount of the collateral in slot `index` by the
    /// signed `amount` and stores it rescaled. A slot beyond the catalog's
    /// capacity is an invalid asset.
    pub fn mutate(
        &mut self,
        index: usize,
        amount: WrappedI80F48,
        supply_multiplier: WrappedI80F48,
        borrow_multiplier: WrappedI80F48,
    ) -> (r: Result<(), ZodError>)
        ensures
            index >= 25 ==> r == Err::<(), ZodError>(ZodError::InvalidAsset) && *final(self)
                == *old(self),
            index < 25 ==> match spec_rescaled(
                old(self).collateral[index as int],
                amount,
                supply_multiplier,
                borrow_multiplier,
            ) {
                Ok(b) => r is Ok && final(self).is_update_of(
                    *old(self),
                    index as int,
                    b,
                    old(self).zod_balance,
                ),
                Err(e) => r == Err::<(), ZodError>(e) && *final(self) == *old(self),
            },
    {
        if index >= 25 {
            return Err(ZodError::InvalidAsset);
        }
        let adjusted_final_col = rescale(
            self.collateral[index],
            amount,
            supply_multiplier,
            borrow_multiplier,
        )?;
        self.collateral[index] = adjusted_final_col;
        Ok(())
    }

    /// The actual amount of the collateral in slot `index` under the supply
    /// multiplier. A slot beyond the catalog's capacity is an invalid asset.
    pub fn get_actual_collateral(&self, index: usize, supply_multiplier: WrappedI80F48) -> (r:
        Result<WrappedI80F48, ZodError>)
        ensures
            index >= 25 ==> r == Err::<WrappedI80F48, ZodError>(ZodError::InvalidAsset),
            index < 25 ==> r == spec_safe_mul(self.collateral[index as int], supply_multiplier),
    {
        if index >= 25 {
            return Err(ZodError::InvalidAsset);
        }
        to_actual(self.collateral[index], supply_multiplier)
    }

    /// The debt in actual units: the scaled debt times the loss multiplier.
    pub fn get_actual_zod_balance(&self, soc_loss_multiplier: WrappedI80F48) -> (r: Result<
        WrappedI80F48,
        ZodError,
    >)
        ensures
            r == self.spec_actual_zod_balance(soc_loss_multiplier),
    {
        to_actual(self.zod_balance, soc_loss_multiplier)
    }

    /// Changes the actual debt by the signed `amount` and stores it
    /// rescaled by the loss multiplier.
    pub fn zod_mutate(&mut self, amount: WrappedI80F48, borrow_multiplier: WrappedI80F48) -> (r:
        Result<(), ZodError>)
        ensures
            match spec_rescaled(
                old(self).zod_balance,
                amount,
                borrow_multiplier,
                borrow_multiplier,
            ) {
                Ok(b) => r is Ok && *final(self) == (ZodMargin { zod_balance: b, ..*old(self) }),
                Err(e) => r == Err::<(), ZodError>(e) && *final(self) == *old(self),
            },
    {
        let adjusted = apply_delta(self.zod_balance, amount, borrow_multiplier, borrow_multiplier)?;
        self.zod_balance = adjusted;
        Ok(())
    }
}

/// The actual balance and the price of one collateral slot, or `None` for
/// a slot that valuations pass over.
pub fn position(
    balance: WrappedI80F48,
    info: &ZodCollateralInfo,
    index: &BorrowIndex,
    cache: &MarketCache,
) -> (r: Result<Option<(WrappedI80F48, WrappedI80F48)>, ZodError>)
    ensures
        r == spec_position(balance, *info, *index, *cache),
{
    if balance.data == 0 || info.is_empty() {
        return Ok(None);
    }
    let actual = to_actual(balance, index.supply_multiplier)?;
    let oracle = cache.get_oracle(&info.oracle_symbol)?;
    if oracle.is_stale {
        return Err(ZodError::StaleOracle);
    }
    Ok(Some((actual, oracle.price)))
}

/// The value of an actual balance at a price, discounted by the weight
/// only when asked for and only for a balance that is not negative.
pub fn position_value(
    actual: WrappedI80F48,
    price: WrappedI80F48,
    weight: u16,
    is_weighted: bool,
) -> (r: Result<WrappedI80F48, ZodError>)
    ensures
        r == spec_position_value(actual, price, weight, is_weighted),
{
    if is_weighted && actual.data >= 0 {
        let weighted_price = price.safe_mul(weight_fraction(weight))?;
        weighted_price.safe_mul(actual)
    } else {
        price.safe_mul(actual)
    }
}

/// The debt that may be closed to bring an account with the given margin
/// fractions back to its initial margin. Fails as not liquidatable unless
/// the base initial requirement exceeds the net liquidation factor
/// `num_lf`.
pub fn max_reducible(
    state: &ZodState,
    num_lf: WrappedI80F48,
    imf: WrappedI80F48,
    omf: WrappedI80F48,
) -> (r: Result<WrappedI80F48, ZodError>)
    ensures
        r == ZodMargin::spec_max_reducible(*state, num_lf, imf, omf),
{
    let zod_base_imf = base_requirement(SPOT_INITIAL_MARGIN_REQ, state.zod_token_info.weight)?;
    let base_fixed = WrappedI80F48::from_int(zod_base_imf as i128)?;
    if !(base_fixed.data > num_lf.data) {
        return Err(ZodError::NotLiquidatable);
    }
    let numerator = imf.safe_sub(omf)?;
    let denominator = base_fixed.safe_sub(num_lf)?;
    numerator.safe_div(denominator)
}

impl ZodMargin {
    /// The value of all collateral in the catalog slots in use. One stale
    /// price among those consulted fails the whole valuation.
    pub fn get_total_collateral_value(
        &self,
        state: &ZodState,
        cache: &MarketCache,
        is_weighted: bool,
    ) -> (r: Result<WrappedI80F48, ZodError>)
        ensures
            r == self.spec_total_collateral_value(*state, *cache, is_weighted),
    {
        let max_col = state.slots();
        let mut sum = WrappedI80F48::zero();
        let mut i: usize = 0;
        while i < max_col
            invariant
                i <= max_col <= 25,
                max_col == state.spec_slots(),
                self.spec_total_collateral_value(*state, *cache, is_weighted)
                    == self.spec_total_value_from(*state, *cache, is_weighted, i as int, sum),
            decreases max_col - i,
        {
            let value = match position(
                self.collateral[i],
                &state.collaterals[i],
                &cache.borrow_cache[i],
                cache,
            )? {
                None => WrappedI80F48::zero(),
                Some((actual, price)) => position_value(
                    actual,
                    price,
                    state.collaterals[i].weight,
                    is_weighted,
                )?,
            };
            sum = sum.safe_add(value)?;
            i += 1;
        }
        Ok(sum)
    }

    /// The value of all collateral, rounded down to a whole number.
    pub fn get_total_collateral_value_i64(
        &self,
        state: &ZodState,
        cache: &MarketCache,
        is_weighted: bool,
    ) -> (r: Result<i64, ZodError>)
        ensures
            match self.spec_total_collateral_value(*state, *cache, is_weighted) {
                Err(e) => r == Err::<i64, ZodError>(e),
                Ok(v) => r == spec_floor_to_i64(v),
            },
    {
        let total = self.get_total_collateral_value(state, cache, is_weighted)?;
        total.floor_to_i64()
    }

    /// The open margin fraction: collateral value less actual debt, times
    /// 1000.
    pub fn get_omf(&self, state: &ZodState, cache: &MarketCache, is_weighted: bool) -> (r: Result<
        WrappedI80F48,
        ZodError,
    >)
        ensures
            r == self.spec_omf(*state, *cache, is_weighted),
    {
        let total_collateral_value = self.get_total_collateral_value(state, cache, is_weighted)?;
        let zod_balance = self.get_actual_zod_balance(state.soc_loss_multiplier)?;
        let net = total_collateral_value.safe_sub(zod_balance)?;
        let thousand = WrappedI80F48::from_int(1000)?;
        net.safe_mul(thousand)
    }

    /// The margin budget for a requirement.
    fn margin_requirement(&self, state: &ZodState, requirement: u32) -> (r: Result<
        WrappedI80F48,
        ZodError,
    >)
        ensures
            r == self.spec_margin_requirement(*state, requirement as int),
    {
        let base = base_requirement(requirement, state.zod_token_info.weight)?;
        let zod_balance = self.get_actual_zod_balance(state.soc_loss_multiplier)?;
        let base_fixed = WrappedI80F48::from_int(base as i128)?;
        base_fixed.safe_mul(zod_balance)
    }

    /// The initial margin fraction: the base initial requirement of the
    /// debt token times the actual debt.
    pub fn get_imf(&self, state: &ZodState) -> (r: Result<WrappedI80F48, ZodError>)
        ensures
            r == self.spec_imf(*state),
    {
        self.margin_requirement(state, SPOT_INITIAL_MARGIN_REQ)
    }

    /// The maintenance margin fraction: the base maintenance requirement
    /// of the debt token times the actual debt.
    pub fn get_mmf(&self, state: &ZodState) -> (r: Result<WrappedI80F48, ZodError>)
        ensures
            r == self.spec_mmf(*state),
    {
        self.margin_requirement(state, SPOT_MAINT_MARGIN_REQ)
    }

    /// The debt that may be closed to bring the account back to its
    /// initial margin. Fails as not liquidatable unless the base initial
    /// requirement exceeds the net liquidation factor `num_lf`.
    pub fn get_max_reducible(
        &self,
        state: &ZodState,
        num_lf: WrappedI80F48,
        imf: WrappedI80F48,
        omf: WrappedI80F48,
    ) -> (r: Result<WrappedI80F48, ZodError>)
        ensures
            r == Self::spec_max_reducible(*state, num_lf, imf, omf),
    {
        max_reducible(state, num_lf, imf, omf)
    }

    /// Whether no collateral among the first `max_col` slots is worth more
    /// than the dust threshold. The slots are consulted in order, and the
    /// first that fails or exceeds the threshold decides.
    pub fn has_no_col_above_dust(
        &self,
        col_infos: &[ZodCollateralInfo; 25],
        max_col: usize,
        cache: &MarketCache,
    ) -> (r: Result<bool, ZodError>)
        ensures
            r == self.spec_no_dust_from(*col_infos, max_col as int, *cache, 0),
    {
        let mut i: usize = 0;
        while i < 25 && i < max_col
            invariant
                i <= 25,
                self.spec_no_dust_from(*col_infos, max_col as int, *cache, 0)
                    == self.spec_no_dust_from(*col_infos, max_col as int, *cache, i as int),
            decreases 25 - i,
        {
            match position(self.collateral[i], &col_infos[i], &cache.borrow_cache[i], cache)? {
                None => {},
                Some((actual, price)) => {
                    let value = price.safe_mul(actual)?.floor_to_i64()?;
                    if value > DUST_THRESHOLD {
                        return Ok(false);
                    }
                },
            }
            i += 1;
        }
        Ok(true)
    }
}

/// A margin account stays consistent with the catalog when only the
/// balance of a listed slot changes and the catalog stays as it is.
pub proof fn lemma_listed_slot_keeps_consistency(
    before: ZodMargin,
    after: ZodMargin,
    state_before: ZodState,
    state_after: ZodState,
    index: int,
)
    requires
        before.spec_consistent_with(state_before),
        state_before.spec_is_listed(index),
        forall|i: int| 0 <= i < 25 && i != index ==> after.collateral[i] == before.collateral[i],
        state_after.collaterals == state_before.collaterals,
        state_after.total_collaterals == state_before.total_collaterals,
    ensures
        after.spec_consistent_with(state_after),
{
    assert forall|i: int|
        0 <= i < 25 && after.collateral[i]@ != 0 implies state_after.spec_is_listed(i) by {
        if i != index {
            assert(after.collateral[i] == before.collateral[i]);
            assert(state_before.spec_is_listed(i));
        }
    }
}

/// A margin account stays consistent with the catalog when neither its
/// collateral nor the catalog changes.
pub proof fn lemma_debt_keeps_consistency(
    before: ZodMargin,
    after: ZodMargin,
    state_before: ZodState,
    state_after: ZodState,
)
    requires
        before.spec_consistent_with(state_before),
        after.collateral == before.collateral,
        state_after.collaterals == state_before.collaterals,
        state_after.total_collaterals == state_before.total_collaterals,
    ensures
        after.spec_consistent_with(state_after),
{
    assert forall|i: int|
        0 <= i < 25 && after.collateral[i]@ != 0 implies state_after.spec_is_listed(i) by {
        assert(state_before.spec_is_listed(i));
    }
}

} // verus!
