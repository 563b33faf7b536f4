//! Settlement of a bankrupt account: its debt is cleared, the liquidator
//! is paid from the insurance fund, and what the fund cannot cover is
//! spread over all outstanding debt.

use crate::common::math::{lemma_div_mul_round_trip, lemma_mul_bits_fraction, ONE_BITS};
use crate::errors::ZodError;
use crate::instructions::liquidate::spec_untouched;
use crate::state::margin::{lemma_listed_slot_keeps_consistency, spec_rescaled, ZodMargin};
use crate::state::state::{spec_borrowed_after, MarketCache, ZodState};
use crate::zod_types::{
    spec_floor_to_i64, spec_floor_to_u64, spec_safe_div, spec_safe_mul, spec_whole, wrap_checked,
    WrappedI80F48,
};
use vstd::prelude::*;

verus! {

/// What a bankruptcy settlement moves between accounts.
#[derive(Clone, Copy, Debug, PartialEq, Eq, Structural)]
pub struct BankruptcyOutcome {
    /// Debt cleared, in actual units.
    pub assets_from_liqor: WrappedI80F48,
    /// Quote credited to the liquidator, in whole smallest units.
    pub quote_to_liqor: i64,
    /// Debt tokens that the liquidator has to burn.
    pub burn_amount: u64,
}

/// The records' new values after a bankruptcy settlement, with what it
/// moves.
#[derive(Clone, Copy, Debug)]
pub struct BankruptcyEffect {
    /// The protocol state.
    pub state: ZodState,
    /// The liquidator's scaled quote collateral (slot 0).
    pub liquidator_quote: WrappedI80F48,
    pub outcome: BankruptcyOutcome,
}

/// The quote that settles `assets` of debt: the debt rounded down to a
/// whole number, times `1000 + liq_fee`, divided by 1000 and rounded down.
/// The product has to fit in an `i64`, and a negative debt has no quote.
pub open spec fn spec_bankruptcy_quote(assets: WrappedI80F48, liq_fee: u16) -> Result<
    i64,
    ZodError,
> {
    match spec_floor_to_i64(assets) {
        Err(e) => Err(e),
        Ok(pre_fee_quote) => {
            let gross = pre_fee_quote * (1000 + liq_fee);
            if pre_fee_quote < 0 || gross > i64::MAX {
                Err(ZodError::ArithmeticFailure)
            } else {
                Ok((gross / 1000) as i64)
            }
        },
    }
}

/// The protocol state after a shortfall of `quote_to_liqor` is taken from
/// the insurance fund. A fund that holds enough is debited. Otherwise the
/// fund is emptied, and the rest, divided by the actual outstanding debt,
/// is the loss per unit of debt by which the loss multiplier is reduced;
/// a loss of 1 or more per unit is an insolvency.
pub open spec fn spec_absorb_loss(state: ZodState, quote_to_liqor: i64) -> Result<
    ZodState,
    ZodError,
> {
    if quote_to_liqor > state.insurance {
        match spec_safe_mul(state.total_zod_borrowed, state.soc_loss_multiplier) {
            Err(e) => Err(e),
            Ok(zod_borrowed) => match spec_safe_div(
                spec_whole(quote_to_liqor - state.insurance),
                zod_borrowed,
            ) {
                Err(e) => Err(e),
                Ok(loss) => if loss@ >= ONE_BITS {
                    Err(ZodError::InsolvencyOverflow)
                } else {
                    match ZodState::spec_socialized(state.soc_loss_multiplier, loss) {
                        Err(e) => Err(e),
                        Ok(multiplier) => Ok(
                            ZodState { insurance: 0, soc_loss_multiplier: multiplier, ..state },
                        ),
                    }
                },
            },
        }
    } else if state.insurance - quote_to_liqor > u64::MAX {
        Err(ZodError::ArithmeticFailure)
    } else {
        Ok(ZodState { insurance: (state.insurance - quote_to_liqor) as u64, ..state })
    }
}

/// The debt that a settlement of the bankruptcy of `liqee` clears and the
/// quote that the liquidator is credited for it. The account must hold no
/// collateral above the dust threshold and owe debt, and catalog slot 0,
/// whose collateral the liquidator is paid in, must hold an asset.
pub open spec fn spec_bankruptcy_terms(
    state: ZodState,
    cache: MarketCache,
    liqee: ZodMargin,
) -> Result<(WrappedI80F48, i64), ZodError> {
    match liqee.spec_no_dust_from(state.collaterals, state.total_collaterals as int, cache, 0) {
        Err(e) => Err(e),
        Ok(false) => Err(ZodError::NotLiquidatable),
        Ok(true) => match liqee.spec_actual_zod_balance(state.soc_loss_multiplier) {
            Err(e) => Err(e),
            Ok(assets) => if assets@ <= 0 {
                Err(ZodError::NotLiquidatable)
            } else if !state.spec_is_listed(0) {
                Err(ZodError::InvalidAsset)
            } else {
                match spec_bankruptcy_quote(assets, state.collaterals[0].liq_fee) {
                    Err(e) => Err(e),
                    Ok(quote) => Ok((assets, quote)),
                }
            },
        },
    }
}

/// The records' new values after `assets` of debt are cleared against a
/// credit of `quote` to the liquidator: the debt leaves the protocol's
/// total, the liquidator's collateral in slot 0 rises by `quote`, and the
/// insurance fund, or failing that all outstanding debt, bears `quote`.
pub open spec fn spec_settlement_effect(
    state: ZodState,
    cache: MarketCache,
    liqor: ZodMargin,
    assets: WrappedI80F48,
    quote: i64,
) -> Result<BankruptcyEffect, ZodError> {
    match wrap_checked(-assets@) {
        Err(e) => Err(e),
        Ok(closed) => match spec_borrowed_after(
            state.total_zod_borrowed,
            state.soc_loss_multiplier,
            closed,
        ) {
            Err(e) => Err(e),
            Ok(total) => match spec_floor_to_u64(assets) {
                Err(e) => Err(e),
                Ok(burn_amount) => match spec_rescaled(
                    liqor.collateral[0],
                    spec_whole(quote as int),
                    cache.borrow_cache[0].supply_multiplier,
                    cache.borrow_cache[0].borrow_multiplier,
                ) {
                    Err(e) => Err(e),
                    Ok(liquidator_quote) => match spec_absorb_loss(
                        ZodState { total_zod_borrowed: total, ..state },
                        quote,
                    ) {
                        Err(e) => Err(e),
                        Ok(settled) => Ok(
                            BankruptcyEffect {
                                state: settled,
                                liquidator_quote,
                                outcome: BankruptcyOutcome {
                                    assets_from_liqor: assets,
                                    quote_to_liqor: quote,
                                    burn_amount,
                                },
                            },
                        ),
                    },
                },
            },
        },
    }
}

/// What settling the bankruptcy of `liqee` does, with `liqor` as the
/// liquidator.
pub open spec fn spec_settle_bankruptcy(
    state: ZodState,
    cache: MarketCache,
    liqee: ZodMargin,
    liqor: ZodMargin,
) -> Result<BankruptcyEffect, ZodError> {
    match spec_bankruptcy_terms(state, cache, liqee) {
        Err(e) => Err(e),
        Ok((assets, quote)) => spec_settlement_effect(state, cache, liqor, assets, quote),
    }
}

/// Whether the records after a settlement are those of `effect`: the
/// state it gives, the debtor's account with its debt cleared, and the
/// liquidator's account with its quote collateral in slot 0 replaced.
pub open spec fn spec_settled(
    effect: BankruptcyEffect,
    liqee_before: ZodMargin,
    liqor_before: ZodMargin,
    state_after: ZodState,
    liqee_after: ZodMargin,
    liqor_after: ZodMargin,
) -> bool {
    &&& state_after == effect.state
    &&& liqee_after == (ZodMargin { zod_balance: WrappedI80F48 { data: 0 }, ..liqee_before })
    &&& liqor_after.is_update_of(
        liqor_before,
        0,
        effect.liquidator_quote,
        liqor_before.zod_balance,
    )
}

/// The quote that settles `assets` of debt, liquidation fee included.
pub fn bankruptcy_quote(assets: WrappedI80F48, liq_fee: u16) -> (r: Result<i64, ZodError>)
    ensures
        r == spec_bankruptcy_quote(assets, liq_fee),
{
    let pre_fee_quote = assets.floor_to_i64()?;
    if pre_fee_quote < 0 {
        return Err(ZodError::ArithmeticFailure);
    }
    let factor: u128 = 1000 + liq_fee as u128;
    assert(pre_fee_quote * factor <= 0x7fff_ffff_ffff_ffff * 0x2_0000) by (nonlinear_arith)
        requires
            0 <= pre_fee_quote <= 0x7fff_ffff_ffff_ffff,
            0 <= factor <= 0x2_0000,
    ;
    let gross: u128 = (pre_fee_quote as u128) * factor;
    if gross > 0x7fff_ffff_ffff_ffff {
        return Err(ZodError::ArithmeticFailure);
    }
    Ok((gross / 1000) as i64)
}

/// Takes a shortfall of `quote_to_liqor` from the insurance fund, and
/// socializes what the fund cannot cover.
///
/// A cover by socialization never raises the loss multiplier: where the
/// multiplier is not negative and the outstanding debt is positive, the
/// multiplier afterwards lies between zero and what it was.
pub fn absorb_loss(zod_state: &mut ZodState, quote_to_liqor: i64) -> (r: Result<(), ZodError>)
    ensures
        match spec_absorb_loss(*old(zod_state), quote_to_liqor) {
            Err(e) => r == Err::<(), ZodError>(e) && *final(zod_state) == *old(zod_state),
            Ok(state) => r is Ok && *final(zod_state) == state,
        },
        ({
            let before = old(zod_state).soc_loss_multiplier;
            let borrowed = spec_safe_mul(old(zod_state).total_zod_borrowed, before);
            r is Ok && before@ >= 0 && borrowed is Ok && borrowed.unwrap()@ > 0
                ==> 0 <= final(zod_state).soc_loss_multiplier@ <= before@
        }),
{
    let mut new_state = *zod_state;
    if quote_to_liqor as i128 > zod_state.insurance as i128 {
        let uncovered: i128 = quote_to_liqor as i128 - zod_state.insurance as i128;
        new_state.insurance = 0;
        let zod_borrowed = new_state.get_actual_zod_borrowed()?;
        let socialize_amount = WrappedI80F48::from_int(uncovered)?.safe_div(zod_borrowed)?;
        if socialize_amount.data >= ONE_BITS {
            return Err(ZodError::InsolvencyOverflow);
        }
        new_state.socialize_loss(socialize_amount)?;
        proof {
            if zod_state.soc_loss_multiplier@ >= 0 && zod_borrowed@ > 0 {
                lemma_div_mul_round_trip(uncovered * ONE_BITS, zod_borrowed@);
                lemma_mul_bits_fraction(
                    ONE_BITS - socialize_amount@,
                    zod_state.soc_loss_multiplier@,
                );
            }
        }
    } else {
        let after: i128 = zod_state.insurance as i128 - quote_to_liqor as i128;
        if after > 0xffff_ffff_ffff_ffff {
            return Err(ZodError::ArithmeticFailure);
        }
        new_state.insurance = after as u64;
    }
    *zod_state = new_state;
    Ok(())
}

/// The debt that a settlement of the bankruptcy of `liqee` clears and the
/// quote that the liquidator is credited for it. An account with
/// collateral above dust, or without debt, is not liquidatable.
pub fn bankruptcy_terms(state: &ZodState, cache: &MarketCache, liqee: &ZodMargin) -> (r: Result<
    (WrappedI80F48, i64),
    ZodError,
>)
    ensures
        r == spec_bankruptcy_terms(*state, *cache, *liqee),
{
    let below_dust = liqee.has_no_col_above_dust(
        &state.collaterals,
        state.total_collaterals as usize,
        cache,
    )?;
    if !below_dust {
        return Err(ZodError::NotLiquidatable);
    }
    let assets_from_liqor = liqee.get_actual_zod_balance(state.soc_loss_multiplier)?;
    if assets_from_liqor.data <= 0 {
        return Err(ZodError::NotLiquidatable);
    }
    let quote_info = state.collateral_at(0)?;
    let quote_to_liqor = bankruptcy_quote(assets_from_liqor, quote_info.liq_fee)?;
    Ok((assets_from_liqor, quote_to_liqor))
}

/// Settles the bankruptcy of `liqee_margin`, an account that holds no
/// collateral above the dust threshold and still owes debt.
///
/// The debt is cleared and taken off the protocol's total; the liquidator
/// is credited the quote for it, fee included, in collateral slot 0; the
/// insurance fund covers that quote as far as it can, and the rest is
/// socialized. An account with collateral above dust, or without debt, is
/// not liquidatable. Either all changes are applied or none is.
pub fn process(
    zod_state: &mut ZodState,
    cache: &MarketCache,
    liqee_margin: &mut ZodMargin,
    liqor_margin: &mut ZodMargin,
) -> (r: Result<BankruptcyOutcome, ZodError>)
    ensures
        old(liqee_margin).spec_consistent_with(*old(zod_state))
            ==> final(liqee_margin).spec_consistent_with(*final(zod_state)),
        old(liqor_margin).spec_consistent_with(*old(zod_state))
            ==> final(liqor_margin).spec_consistent_with(*final(zod_state)),
        match spec_settle_bankruptcy(
            *old(zod_state),
            *cache,
            *old(liqee_margin),
            *old(liqor_margin),
        ) {
            Err(e) => r == Err::<BankruptcyOutcome, ZodError>(e) && spec_untouched(
                *old(zod_state),
                *old(liqee_margin),
                *old(liqor_margin),
                *final(zod_state),
                *final(liqee_margin),
                *final(liqor_margin),
            ),
            Ok(effect) => r == Ok::<BankruptcyOutcome, ZodError>(effect.outcome) && spec_settled(
                effect,
                *old(liqee_margin),
                *old(liqor_margin),
                *final(zod_state),
                *final(liqee_margin),
                *final(liqor_margin),
            ),
        },
        old(liqee_margin).spec_no_dust_from(
            old(zod_state).collaterals,
            old(zod_state).total_collaterals as int,
            *cache,
            0,
        ) != Ok::<bool, ZodError>(true) ==> r is Err && spec_untouched(
            *old(zod_state),
            *old(liqee_margin),
            *old(liqor_margin),
            *final(zod_state),
            *final(liqee_margin),
            *final(liqor_margin),
        ),
{
    let (assets_from_liqor, quote_to_liqor) = bankruptcy_terms(zod_state, cache, liqee_margin)?;

    let mut new_state = *zod_state;
    let mut new_liqee = *liqee_margin;
    let mut new_liqor = *liqor_margin;
    let _ = new_liqee.bankrupt();
    new_state.mutate_zod_borrowed(assets_from_liqor.safe_neg()?)?;
    let burn_amount = assets_from_liqor.floor_to_u64()?;
    new_liqor.mutate(
        0,
        WrappedI80F48::from_int(quote_to_liqor as i128)?,
        cache.borrow_cache[0].supply_multiplier,
        cache.borrow_cache[0].borrow_multiplier,
    )?;
    absorb_loss(&mut new_state, quote_to_liqor)?;

    proof {
        if liqee_margin.spec_consistent_with(*zod_state) {
            lemma_listed_slot_keeps_consistency(*liqee_margin, new_liqee, *zod_state, new_state, 0);
        }
        if liqor_margin.spec_consistent_with(*zod_state) {
            lemma_listed_slot_keeps_consistency(*liqor_margin, new_liqor, *zod_state, new_state, 0);
        }
    }
    *zod_state = new_state;
    *liqee_margin = new_liqee;
    *liqor_margin = new_liqor;
    Ok(BankruptcyOutcome { assets_from_liqor, quote_to_liqor, burn_amount })
}

} // verus!
