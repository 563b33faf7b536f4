//! Partial liquidation of an under-collateralized account.

use crate::common::math::lemma_div_mul_round_trip;
use crate::errors::ZodError;
use crate::state::margin::{
    lemma_listed_slot_keeps_consistency, max_reducible, spec_rescaled, ZodMargin,
};
use crate::state::state::{spec_borrowed_after, MarketCache, ZodState};
use crate::zod_types::{
    spec_floor_to_i64, spec_floor_to_u64, spec_safe_div, spec_safe_mul, spec_safe_sub,
    spec_whole, wrap_checked, Identity, Symbol, WrappedI80F48,
};
use vstd::prelude::*;

verus! {

/// What a liquidation moves between accounts.
#[derive(Clone, Copy, Debug, PartialEq, Eq, Structural)]
pub struct LiquidationOutcome {
    /// Debt closed, in actual units.
    pub assets_from_liqor: WrappedI80F48,
    /// Quote collateral that goes from the debtor to the liquidator, in
    /// whole smallest units.
    pub quote_to_liqor: i64,
    /// Debt tokens that the liquidator has to burn.
    pub burn_amount: u64,
}

/// The balances after a liquidation, with what it moves.
#[derive(Clone, Copy, Debug, PartialEq, Eq, Structural)]
pub struct LiquidationEffect {
    /// The debtor's scaled debt.
    pub debtor_debt: WrappedI80F48,
    /// The debtor's scaled quote collateral.
    pub debtor_quote: WrappedI80F48,
    /// The liquidator's scaled quote collateral.
    pub liquidator_quote: WrappedI80F48,
    /// The protocol's scaled total debt.
    pub total_zod_borrowed: WrappedI80F48,
    pub outcome: LiquidationOutcome,
}

/// The factor `1 + fee` by which the quote paid for closed debt exceeds
/// its price: `(1000 + zod_liq_fee) / (1000 - quote_liq_fee)`, both fees in
/// permil. There is none for a quote fee of 1000 permil or more.
pub open spec fn spec_fee_multiplier(zod_liq_fee: u16, quote_liq_fee: u16) -> Result<
    WrappedI80F48,
    ZodError,
> {
    if quote_liq_fee >= 1000 {
        Err(ZodError::ArithmeticFailure)
    } else {
        spec_safe_div(spec_whole(1000 + zod_liq_fee), spec_whole(1000 - quote_liq_fee))
    }
}

/// The net liquidation factor: the quote's weight in permil times the fee
/// multiplier, less 1000.
pub open spec fn spec_net_liquidation_factor(
    quote_weight: u16,
    fee_multiplier: WrappedI80F48,
) -> Result<WrappedI80F48, ZodError> {
    match spec_safe_mul(spec_whole(quote_weight as int), fee_multiplier) {
        Err(e) => Err(e),
        Ok(gross) => spec_safe_sub(gross, spec_whole(1000)),
    }
}

/// The debt that a liquidation closes: the least of what was asked for,
/// what restores the account's health, and what the debtor owes.
pub open spec fn spec_size_liquidation(
    requested_amount: u64,
    max_reducible: WrappedI80F48,
    zod_balance: WrappedI80F48,
) -> WrappedI80F48 {
    let requested = spec_whole(requested_amount as int);
    let capped = if max_reducible@ <= zod_balance@ {
        max_reducible
    } else {
        zod_balance
    };
    if capped@ <= requested@ {
        capped
    } else {
        requested
    }
}

/// The price of one unit of debt in quote units: the inverse of the
/// quote's price. A stale or unknown quote price fails.
pub open spec fn spec_asset_quote_price(cache: MarketCache, symbol: Symbol) -> Result<
    WrappedI80F48,
    ZodError,
> {
    match cache.spec_get_oracle(symbol) {
        Err(e) => Err(e),
        Ok(oracle) => if oracle.is_stale {
            Err(ZodError::StaleOracle)
        } else {
            spec_safe_div(spec_whole(1), oracle.price)
        },
    }
}

/// The quote owed for closing `assets` of debt: the debt at the quote
/// price, rounded down to a whole number, times the fee multiplier,
/// rounded down again.
pub open spec fn spec_quote_amount(
    assets: WrappedI80F48,
    asset_quote_price: WrappedI80F48,
    fee_multiplier: WrappedI80F48,
) -> Result<i64, ZodError> {
    match spec_safe_mul(assets, asset_quote_price) {
        Err(e) => Err(e),
        Ok(exact) => match spec_floor_to_i64(exact) {
            Err(e) => Err(e),
            Ok(pre_fee_quote) => match spec_safe_mul(
                spec_whole(pre_fee_quote as int),
                fee_multiplier,
            ) {
                Err(e) => Err(e),
                Ok(with_fee) => spec_floor_to_i64(with_fee),
            },
        },
    }
}

/// The debt closed and the quote paid once the quote is capped at what
/// the debtor holds. Where the quote owed exceeds `max_quote_col`, the
/// quote becomes `max_quote_col` and the debt the amount that this quote
/// pays for: `max_quote_col / (asset_quote_price * fee_multiplier)`.
pub open spec fn spec_resized(
    assets: WrappedI80F48,
    quote: i64,
    max_quote_col: i64,
    asset_quote_price: WrappedI80F48,
    fee_multiplier: WrappedI80F48,
) -> Result<(WrappedI80F48, i64), ZodError> {
    if quote > max_quote_col {
        match spec_safe_mul(asset_quote_price, fee_multiplier) {
            Err(e) => Err(e),
            Ok(quote_per_asset) => match spec_safe_div(
                spec_whole(max_quote_col as int),
                quote_per_asset,
            ) {
                Err(e) => Err(e),
                Ok(resized) => Ok((resized, max_quote_col)),
            },
        }
    } else {
        Ok((assets, quote))
    }
}

/// The debtor's actual debt and its initial and open margin fractions, in
/// that order, if the account may be liquidated: it owes debt, and its
/// open margin fraction is under its maintenance margin fraction.
pub open spec fn spec_liquidatable(state: ZodState, cache: MarketCache, liqee: ZodMargin) -> Result<
    (WrappedI80F48, WrappedI80F48, WrappedI80F48),
    ZodError,
> {
    match liqee.spec_actual_zod_balance(state.soc_loss_multiplier) {
        Err(e) => Err(e),
        Ok(zod_balance) => if zod_balance@ <= 0 {
            Err(ZodError::NotLiquidatable)
        } else {
            match liqee.spec_omf(state, cache, true) {
                Err(e) => Err(e),
                Ok(omf) => match liqee.spec_imf(state) {
                    Err(e) => Err(e),
                    Ok(imf) => match liqee.spec_mmf(state) {
                        Err(e) => Err(e),
                        Ok(mmf) => if omf@ < mmf@ {
                            Ok((zod_balance, imf, omf))
                        } else {
                            Err(ZodError::NotLiquidatable)
                        },
                    },
                },
            }
        },
    }
}

/// The debt that a liquidation against the quote collateral in slot
/// `quote_index` closes, and the quote that it pays. A slot that is not in
/// use or holds no asset is an invalid asset.
pub open spec fn spec_liquidation_terms(
    state: ZodState,
    cache: MarketCache,
    liqee: ZodMargin,
    quote_index: int,
    requested_amount: u64,
) -> Result<(WrappedI80F48, i64), ZodError> {
    if !state.spec_is_listed(quote_index) {
        Err(ZodError::InvalidAsset)
    } else {
        spec_terms_in_slot(state, cache, liqee, quote_index, requested_amount)
    }
}

/// The terms of a liquidation against the quote collateral in the listed
/// slot `quote_index`.
pub open spec fn spec_terms_in_slot(
    state: ZodState,
    cache: MarketCache,
    liqee: ZodMargin,
    quote_index: int,
    requested_amount: u64,
) -> Result<(WrappedI80F48, i64), ZodError> {
    let quote_info = state.collaterals[quote_index];
    match spec_liquidatable(state, cache, liqee) {
        Err(e) => Err(e),
        Ok((zod_balance, imf, omf)) => match spec_fee_multiplier(
            state.zod_token_info.liq_fee,
            quote_info.liq_fee,
        ) {
            Err(e) => Err(e),
            Ok(fee_multiplier) => match spec_net_liquidation_factor(
                quote_info.weight,
                fee_multiplier,
            ) {
                Err(e) => Err(e),
                Ok(num_lf) => match ZodMargin::spec_max_reducible(state, num_lf, imf, omf) {
                    Err(e) => Err(e),
                    Ok(max_reducible) => match spec_asset_quote_price(
                        cache,
                        quote_info.oracle_symbol,
                    ) {
                        Err(e) => Err(e),
                        Ok(asset_quote_price) => {
                            let assets = spec_size_liquidation(
                                requested_amount,
                                max_reducible,
                                zod_balance,
                            );
                            match spec_quote_amount(assets, asset_quote_price, fee_multiplier) {
                                Err(e) => Err(e),
                                Ok(quote) => match spec_safe_mul(
                                    liqee.collateral[quote_index],
                                    cache.borrow_cache[quote_index].supply_multiplier,
                                ) {
                                    Err(e) => Err(e),
                                    Ok(held) => match spec_floor_to_i64(held) {
                                        Err(e) => Err(e),
                                        Ok(max_quote_col) => spec_resized(
                                            assets,
                                            quote,
                                            max_quote_col,
                                            asset_quote_price,
                                            fee_multiplier,
                                        ),
                                    },
                                },
                            }
                        },
                    },
                },
            },
        },
    }
}

/// The balances after `assets` of the debtor's debt are closed against
/// `quote` of its quote collateral in slot `quote_index`. A slot that is
/// not in use or holds no asset is an invalid asset.
pub open spec fn spec_liquidation_effect(
    state: ZodState,
    cache: MarketCache,
    liqee: ZodMargin,
    liqor: ZodMargin,
    quote_index: int,
    assets: WrappedI80F48,
    quote: i64,
) -> Result<LiquidationEffect, ZodError> {
    if !state.spec_is_listed(quote_index) {
        Err(ZodError::InvalidAsset)
    } else {
        spec_effect_in_slot(state, cache, liqee, liqor, quote_index, assets, quote)
    }
}

/// The balances after `assets` of the debtor's debt are closed against
/// `quote` of its quote collateral in the listed slot `quote_index`.
pub open spec fn spec_effect_in_slot(
    state: ZodState,
    cache: MarketCache,
    liqee: ZodMargin,
    liqor: ZodMargin,
    quote_index: int,
    assets: WrappedI80F48,
    quote: i64,
) -> Result<LiquidationEffect, ZodError> {
    let soc = state.soc_loss_multiplier;
    let supply = cache.borrow_cache[quote_index].supply_multiplier;
    let borrow = cache.borrow_cache[quote_index].borrow_multiplier;
    match wrap_checked(-assets@) {
        Err(e) => Err(e),
        Ok(closed) => match spec_rescaled(liqee.zod_balance, closed, soc, soc) {
            Err(e) => Err(e),
            Ok(debtor_debt) => match spec_borrowed_after(state.total_zod_borrowed, soc, closed) {
                Err(e) => Err(e),
                Ok(total_zod_borrowed) => match spec_rescaled(
                    liqee.collateral[quote_index],
                    spec_whole(-quote),
                    supply,
                    borrow,
                ) {
                    Err(e) => Err(e),
                    Ok(debtor_quote) => match spec_floor_to_u64(assets) {
                        Err(e) => Err(e),
                        Ok(burn_amount) => match spec_rescaled(
                            liqor.collateral[quote_index],
                            spec_whole(quote as int),
                            supply,
                            borrow,
                        ) {
                            Err(e) => Err(e),
                            Ok(liquidator_quote) => Ok(
                                LiquidationEffect {
                                    debtor_debt,
                                    debtor_quote,
                                    liquidator_quote,
                                    total_zod_borrowed,
                                    outcome: LiquidationOutcome {
                                        assets_from_liqor: assets,
                                        quote_to_liqor: quote,
                                        burn_amount,
                                    },
                                },
                            ),
                        },
                    },
                },
            },
        },
    }
}

/// What a liquidation of `liqee` by `liqor` against the quote collateral
/// of mint `quote_mint` does.
pub open spec fn spec_liquidate(
    state: ZodState,
    cache: MarketCache,
    liqee: ZodMargin,
    liqor: ZodMargin,
    quote_mint: Identity,
    requested_amount: u64,
) -> Result<LiquidationEffect, ZodError> {
    match state.spec_collateral_index(quote_mint, 0) {
        None => Err(ZodError::InvalidAsset),
        Some(quote_index) => match spec_liquidation_terms(
            state,
            cache,
            liqee,
            quote_index,
            requested_amount,
        ) {
            Err(e) => Err(e),
            Ok((assets, quote)) => spec_liquidation_effect(
                state,
                cache,
                liqee,
                liqor,
                quote_index,
                assets,
                quote,
            ),
        },
    }
}

/// The factor by which the quote paid for closed debt exceeds its price.
pub fn fee_multiplier(zod_liq_fee: u16, quote_liq_fee: u16) -> (r: Result<WrappedI80F48, ZodError>)
    ensures
        r == spec_fee_multiplier(zod_liq_fee, quote_liq_fee),
{
    if quote_liq_fee >= 1000 {
        return Err(ZodError::ArithmeticFailure);
    }
    let gain = WrappedI80F48::from_int(1000 + zod_liq_fee as i128)?;
    let keep = WrappedI80F48::from_int(1000 - quote_liq_fee as i128)?;
    gain.safe_div(keep)
}

/// The net liquidation factor of a quote collateral.
pub fn net_liquidation_factor(quote_weight: u16, fee_multiplier: WrappedI80F48) -> (r: Result<
    WrappedI80F48,
    ZodError,
>)
    ensures
        r == spec_net_liquidation_factor(quote_weight, fee_multiplier),
{
    let weight = WrappedI80F48::from_int(quote_weight as i128)?;
    let thousand = WrappedI80F48::from_int(1000)?;
    weight.safe_mul(fee_multiplier)?.safe_sub(thousand)
}

/// The debt that a liquidation closes: the least of what was asked for,
/// what restores the account's health, and what the debtor owes.
pub fn size_liquidation(
    requested_amount: u64,
    max_reducible: WrappedI80F48,
    zod_balance: WrappedI80F48,
) -> (r: WrappedI80F48)
    ensures
        r == spec_size_liquidation(requested_amount, max_reducible, zod_balance),
        r@ <= max_reducible@,
        r@ <= zod_balance@,
        r@ <= spec_whole(requested_amount as int)@,
{
    match WrappedI80F48::from_int(requested_amount as i128) {
        Ok(requested) => max_reducible.min(zod_balance).min(requested),
        Err(_) => max_reducible.min(zod_balance),
    }
}

/// The price of one unit of debt in quote units.
pub fn asset_quote_price(cache: &MarketCache, symbol: &Symbol) -> (r: Result<
    WrappedI80F48,
    ZodError,
>)
    ensures
        r == spec_asset_quote_price(*cache, *symbol),
{
    let quote_oracle = cache.get_oracle(symbol)?;
    if quote_oracle.is_stale {
        return Err(ZodError::StaleOracle);
    }
    WrappedI80F48::one().safe_div(quote_oracle.price)
}

/// The quote owed for closing `assets` of debt.
pub fn quote_amount(
    assets: WrappedI80F48,
    asset_quote_price: WrappedI80F48,
    fee_multiplier: WrappedI80F48,
) -> (r: Result<i64, ZodError>)
    ensures
        r == spec_quote_amount(assets, asset_quote_price, fee_multiplier),
{
    let pre_fee_quote = assets.safe_mul(asset_quote_price)?.floor_to_i64()?;
    WrappedI80F48::from_int(pre_fee_quote as i128)?.safe_mul(fee_multiplier)?.floor_to_i64()
}

/// Caps the quote paid at what the debtor holds, and resizes the debt
/// closed to what the capped quote pays for.
pub fn resize(
    assets: WrappedI80F48,
    quote: i64,
    max_quote_col: i64,
    asset_quote_price: WrappedI80F48,
    fee_multiplier: WrappedI80F48,
) -> (r: Result<(WrappedI80F48, i64), ZodError>)
    ensures
        r == spec_resized(assets, quote, max_quote_col, asset_quote_price, fee_multiplier),
        r is Ok ==> r.unwrap().1 <= max_quote_col,
{
    if quote > max_quote_col {
        let quote_per_asset = asset_quote_price.safe_mul(fee_multiplier)?;
        let resized = WrappedI80F48::from_int(max_quote_col as i128)?.safe_div(quote_per_asset)?;
        Ok((resized, max_quote_col))
    } else {
        Ok((assets, quote))
    }
}

/// The debtor's actual debt and its initial and open margin fractions, if
/// the account may be liquidated.
pub fn liquidatable(state: &ZodState, cache: &MarketCache, liqee: &ZodMargin) -> (r: Result<
    (WrappedI80F48, WrappedI80F48, WrappedI80F48),
    ZodError,
>)
    ensures
        r == spec_liquidatable(*state, *cache, *liqee),
{
    let zod_balance = liqee.get_actual_zod_balance(state.soc_loss_multiplier)?;
    if zod_balance.data <= 0 {
        return Err(ZodError::NotLiquidatable);
    }
    let omf = liqee.get_omf(state, cache, true)?;
    let imf = liqee.get_imf(state)?;
    let mmf = liqee.get_mmf(state)?;
    if omf.data < mmf.data {
        Ok((zod_balance, imf, omf))
    } else {
        Err(ZodError::NotLiquidatable)
    }
}

/// The debt that a liquidation against the quote collateral in slot
/// `quote_index` closes, and the quote that it pays. The quote never
/// exceeds the whole units of quote collateral that the debtor holds.
pub fn liquidation_terms(
    state: &ZodState,
    cache: &MarketCache,
    liqee: &ZodMargin,
    quote_index: usize,
    requested_amount: u64,
) -> (r: Result<(WrappedI80F48, i64), ZodError>)
    ensures
        r == spec_liquidation_terms(*state, *cache, *liqee, quote_index as int, requested_amount),
{
    let quote_info = state.collateral_at(quote_index)?;
    let (zod_balance, imf, omf) = liquidatable(state, cache, liqee)?;
    let fee = fee_multiplier(state.zod_token_info.liq_fee, quote_info.liq_fee)?;
    let num_lf = net_liquidation_factor(quote_info.weight, fee)?;
    let max_assets_transfer = liqee.get_max_reducible(state, num_lf, imf, omf)?;
    let price = asset_quote_price(cache, &quote_info.oracle_symbol)?;
    let assets_from_liqor = size_liquidation(requested_amount, max_assets_transfer, zod_balance);
    let quote_to_liqor = quote_amount(assets_from_liqor, price, fee)?;
    let max_quote_col = liqee.get_actual_collateral(
        quote_index,
        cache.borrow_cache[quote_index].supply_multiplier,
    )?.floor_to_i64()?;
    resize(assets_from_liqor, quote_to_liqor, max_quote_col, price, fee)
}

/// Whether the three records after an operation are the records before
/// it.
pub open spec fn spec_untouched(
    state_before: ZodState,
    liqee_before: ZodMargin,
    liqor_before: ZodMargin,
    state_after: ZodState,
    liqee_after: ZodMargin,
    liqor_after: ZodMargin,
) -> bool {
    &&& state_after == state_before
    &&& liqee_after == liqee_before
    &&& liqor_after == liqor_before
}

/// Whether the records after a liquidation are the records before it with
/// the balances of `effect` written to them, and nothing else changed.
pub open spec fn spec_applied(
    effect: LiquidationEffect,
    quote_index: int,
    state_before: ZodState,
    liqee_before: ZodMargin,
    liqor_before: ZodMargin,
    state_after: ZodState,
    liqee_after: ZodMargin,
    liqor_after: ZodMargin,
) -> bool {
    &&& state_after == (ZodState { total_zod_borrowed: effect.total_zod_borrowed, ..state_before })
    &&& liqee_after.is_update_of(
        liqee_before,
        quote_index,
        effect.debtor_quote,
        effect.debtor_debt,
    )
    &&& liqor_after.is_update_of(
        liqor_before,
        quote_index,
        effect.liquidator_quote,
        liqor_before.zod_balance,
    )
}

/// Closes `assets` of the debtor's debt against `quote` of its quote
/// collateral in slot `quote_index`: the debtor's debt and the protocol's
/// total debt fall by `assets`, and `quote` goes from the debtor's quote
/// collateral to the liquidator's. Either all of it is applied or nothing.
pub fn apply_liquidation(
    zod_state: &mut ZodState,
    cache: &MarketCache,
    liqee_margin: &mut ZodMargin,
    liqor_margin: &mut ZodMargin,
    quote_index: usize,
    assets: WrappedI80F48,
    quote: i64,
) -> (r: Result<LiquidationOutcome, ZodError>)
    ensures
        old(liqee_margin).spec_consistent_with(*old(zod_state))
            ==> final(liqee_margin).spec_consistent_with(*final(zod_state)),
        old(liqor_margin).spec_consistent_with(*old(zod_state))
            ==> final(liqor_margin).spec_consistent_with(*final(zod_state)),
        match spec_liquidation_effect(
            *old(zod_state),
            *cache,
            *old(liqee_margin),
            *old(liqor_margin),
            quote_index as int,
            assets,
            quote,
        ) {
            Err(e) => r == Err::<LiquidationOutcome, ZodError>(e) && spec_untouched(
                *old(zod_state),
                *old(liqee_margin),
                *old(liqor_margin),
                *final(zod_state),
                *final(liqee_margin),
                *final(liqor_margin),
            ),
            Ok(effect) => r == Ok::<LiquidationOutcome, ZodError>(effect.outcome) && spec_applied(
                effect,
                quote_index as int,
                *old(zod_state),
                *old(liqee_margin),
                *old(liqor_margin),
                *final(zod_state),
                *final(liqee_margin),
                *final(liqor_margin),
            ),
        },
{
    let _ = zod_state.collateral_at(quote_index)?;
    let soc = zod_state.soc_loss_multiplier;
    let supply = cache.borrow_cache[quote_index].supply_multiplier;
    let borrow = cache.borrow_cache[quote_index].borrow_multiplier;
    let mut new_state = *zod_state;
    let mut new_liqee = *liqee_margin;
    let mut new_liqor = *liqor_margin;

    let closed = assets.safe_neg()?;
    new_liqee.zod_mutate(closed, soc)?;
    new_state.mutate_zod_borrowed(closed)?;
    let paid = WrappedI80F48::from_int(-(quote as i128))?;
    new_liqee.mutate(quote_index, paid, supply, borrow)?;
    let burn_amount = assets.floor_to_u64()?;
    let received = WrappedI80F48::from_int(quote as i128)?;
    new_liqor.mutate(quote_index, received, supply, borrow)?;

    proof {
        if liqee_margin.spec_consistent_with(*zod_state) {
            lemma_listed_slot_keeps_consistency(
                *liqee_margin,
                new_liqee,
                *zod_state,
                new_state,
                quote_index as int,
            );
        }
        if liqor_margin.spec_consistent_with(*zod_state) {
            lemma_listed_slot_keeps_consistency(
                *liqor_margin,
                new_liqor,
                *zod_state,
                new_state,
                quote_index as int,
            );
        }
    }
    *zod_state = new_state;
    *liqee_margin = new_liqee;
    *liqor_margin = new_liqor;
    Ok(LiquidationOutcome { assets_from_liqor: assets, quote_to_liqor: quote, burn_amount })
}

/// A liquidation never takes the debtor's quote collateral below zero.
///
/// Whatever amount is asked for, if the debtor's quote collateral is not
/// negative before a liquidation and the supply multiplier is positive,
/// it is not negative after it.
pub proof fn theorem_debtor_quote_stays_non_negative(
    state: ZodState,
    cache: MarketCache,
    liqee: ZodMargin,
    liqor: ZodMargin,
    quote_mint: Identity,
    requested_amount: u64,
)
    requires
        spec_liquidate(state, cache, liqee, liqor, quote_mint, requested_amount) is Ok,
        liqee.collateral[state.spec_collateral_index(quote_mint, 0).unwrap()]@ >= 0,
        cache.borrow_cache[state.spec_collateral_index(
            quote_mint,
            0,
        ).unwrap()].supply_multiplier@ > 0,
    ensures
        spec_liquidate(
            state,
            cache,
            liqee,
            liqor,
            quote_mint,
            requested_amount,
        ).unwrap().debtor_quote@ >= 0,
{
    let quote_index = state.spec_collateral_index(quote_mint, 0).unwrap();
    let terms = spec_liquidation_terms(state, cache, liqee, quote_index, requested_amount);
    let (assets, quote) = terms.unwrap();
    let supply = cache.borrow_cache[quote_index].supply_multiplier;
    let held = spec_safe_mul(liqee.collateral[quote_index], supply).unwrap();
    let max_quote_col = spec_floor_to_i64(held).unwrap();
    assert(quote <= max_quote_col);
    let after = held@ - quote * crate::common::math::ONE_BITS;
    assert(after >= 0);
    lemma_div_mul_round_trip(after, supply@);
}

/// Liquidates part of the debt of `liqee_margin`, an account whose open
/// margin fraction is under its maintenance margin fraction, against its
/// collateral of mint `quote_mint`.
///
/// The debt closed is the least of `asset_transfer_amount`, of what brings
/// the account back to its initial margin, and of what it owes; the quote
/// paid for it, fee included, never exceeds the whole units of quote
/// collateral that the debtor holds. Either all changes are applied or
/// none is.
pub fn process(
    zod_state: &mut ZodState,
    cache: &MarketCache,
    liqee_margin: &mut ZodMargin,
    liqor_margin: &mut ZodMargin,
    quote_mint: &Identity,
    asset_transfer_amount: u64,
) -> (r: Result<LiquidationOutcome, ZodError>)
    ensures
        match spec_liquidate(
            *old(zod_state),
            *cache,
            *old(liqee_margin),
            *old(liqor_margin),
            *quote_mint,
            asset_transfer_amount,
        ) {
            Err(e) => r == Err::<LiquidationOutcome, ZodError>(e) && spec_untouched(
                *old(zod_state),
                *old(liqee_margin),
                *old(liqor_margin),
                *final(zod_state),
                *final(liqee_margin),
                *final(liqor_margin),
            ),
            Ok(effect) => r == Ok::<LiquidationOutcome, ZodError>(effect.outcome) && spec_applied(
                effect,
                old(zod_state).spec_collateral_index(*quote_mint, 0).unwrap(),
                *old(zod_state),
                *old(liqee_margin),
                *old(liqor_margin),
                *final(zod_state),
                *final(liqee_margin),
                *final(liqor_margin),
            ),
        },
        old(liqee_margin).spec_consistent_with(*old(zod_state))
            ==> final(liqee_margin).spec_consistent_with(*final(zod_state)),
        old(liqor_margin).spec_consistent_with(*old(zod_state))
            ==> final(liqor_margin).spec_consistent_with(*final(zod_state)),
        r is Ok ==> ({
            let quote_index = old(zod_state).spec_collateral_index(*quote_mint, 0).unwrap();
            old(liqee_margin).collateral[quote_index]@ >= 0
                && cache.borrow_cache[quote_index].supply_multiplier@ > 0
                ==> final(liqee_margin).collateral[quote_index]@ >= 0
        }),
{
    let quote_col_index = match zod_state.get_collateral_index(quote_mint) {
        Some(i) => i,
        None => {
            return Err(ZodError::InvalidAsset);
        },
    };
    let (assets_from_liqor, quote_to_liqor) = liquidation_terms(
        zod_state,
        cache,
        liqee_margin,
        quote_col_index,
        asset_transfer_amount,
    )?;
    let ghost state_before = *zod_state;
    let ghost liqee_before = *liqee_margin;
    let ghost liqor_before = *liqor_margin;
    let r = apply_liquidation(
        zod_state,
        cache,
        liqee_margin,
        liqor_margin,
        quote_col_index,
        assets_from_liqor,
        quote_to_liqor,
    );
    proof {
        if r is Ok && liqee_before.collateral[quote_col_index as int]@ >= 0
            && cache.borrow_cache[quote_col_index as int].supply_multiplier@ > 0 {
            theorem_debtor_quote_stays_non_negative(
                state_before,
                *cache,
                liqee_before,
                liqor_before,
                *quote_mint,
                asset_transfer_amount,
            );
        }
    }
    r
}

/// Whether liquidations against the quote collateral in slot `quote_index`
/// can be sized under the fees and weights that the state holds: the slot
/// is listed, and the base initial requirement of the debt token exceeds
/// the net liquidation factor of the quote collateral.
pub open spec fn spec_validate_fees(state: ZodState, quote_index: int) -> Result<(), ZodError> {
    if !state.spec_is_listed(quote_index) {
        Err(ZodError::InvalidAsset)
    } else {
        match spec_fee_multiplier(
            state.zod_token_info.liq_fee,
            state.collaterals[quote_index].liq_fee,
        ) {
            Err(e) => Err(e),
            Ok(fee) => match spec_net_liquidation_factor(
                state.collaterals[quote_index].weight,
                fee,
            ) {
                Err(e) => Err(e),
                Ok(num_lf) => match ZodMargin::spec_max_reducible(
                    state,
                    num_lf,
                    spec_whole(0),
                    spec_whole(0),
                ) {
                    Err(e) => Err(e),
                    Ok(_) => Ok(()),
                },
            },
        }
    }
}

/// Checks the fees and weights that liquidations against the quote
/// collateral in slot `quote_index` depend on. To be run whenever a weight
/// or a fee is set: where it passes, no liquidation against that
/// collateral is refused for its fee structure.
pub fn validate_fees(state: &ZodState, quote_index: usize) -> (r: Result<(), ZodError>)
    ensures
        r == spec_validate_fees(*state, quote_index as int),
        r is Ok ==> forall|imf: WrappedI80F48, omf: WrappedI80F48|
            (#[trigger] ZodMargin::spec_max_reducible(
                *state,
                spec_net_liquidation_factor(
                    state.collaterals[quote_index as int].weight,
                    spec_fee_multiplier(
                        state.zod_token_info.liq_fee,
                        state.collaterals[quote_index as int].liq_fee,
                    ).unwrap(),
                ).unwrap(),
                imf,
                omf,
            )) != Err::<WrappedI80F48, ZodError>(ZodError::NotLiquidatable),
{
    let quote_info = state.collateral_at(quote_index)?;
    let fee = fee_multiplier(state.zod_token_info.liq_fee, quote_info.liq_fee)?;
    let num_lf = net_liquidation_factor(quote_info.weight, fee)?;
    let _ = max_reducible(state, num_lf, WrappedI80F48::zero(), WrappedI80F48::zero())?;
    Ok(())
}

} // verus!
