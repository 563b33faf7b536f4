//! Withdrawal of collateral.

use crate::errors::ZodError;
use crate::state::margin::{lemma_listed_slot_keeps_consistency, spec_rescaled, ZodMargin};
use crate::state::state::{MarketCache, ZodState};
use crate::zod_types::{spec_safe_mul, spec_whole, Identity, WrappedI80F48};
use vstd::prelude::*;

verus! {

/// The margin account after `amount` of the collateral of mint `mint` is
/// withdrawn. The account must hold more than `amount` of it, and its open
/// margin fraction after the withdrawal must exceed its initial margin
/// fraction.
pub open spec fn spec_withdraw(
    state: ZodState,
    cache: MarketCache,
    margin: ZodMargin,
    mint: Identity,
    amount: u64,
) -> Result<ZodMargin, ZodError> {
    match state.spec_collateral_index(mint, 0) {
        None => Err(ZodError::InvalidAsset),
        Some(index) => {
            let supply = cache.borrow_cache[index].supply_multiplier;
            let borrow = cache.borrow_cache[index].borrow_multiplier;
            match spec_safe_mul(margin.collateral[index], supply) {
                Err(e) => Err(e),
                Ok(actual_col) => if actual_col@ > spec_whole(amount as int)@ {
                    match spec_rescaled(
                        margin.collateral[index],
                        spec_whole(-amount),
                        supply,
                        borrow,
                    ) {
                        Err(e) => Err(e),
                        Ok(balance) => {
                            let after = margin.with_collateral(index, balance);
                            match after.spec_omf(state, cache, true) {
                                Err(e) => Err(e),
                                Ok(omf) => match after.spec_imf(state) {
                                    Err(e) => Err(e),
                                    Ok(imf) => if omf@ > imf@ {
                                        Ok(after)
                                    } else {
                                        Err(ZodError::MarginBelowThreshold)
                                    },
                                },
                            }
                        },
                    }
                } else {
                    Err(ZodError::MarginBelowThreshold)
                },
            }
        },
    }
}

/// Takes `amount` of the collateral of mint `mint` out of `zod_margin` and
/// returns the number of tokens to hand to the owner. A withdrawal of all
/// that is held or more, or one that would leave the open margin fraction
/// at or under the initial margin fraction, is rejected as below
/// threshold. Either the change is applied or nothing is.
pub fn process(
    zod_state: &ZodState,
    cache: &MarketCache,
    zod_margin: &mut ZodMargin,
    mint: &Identity,
    amount: u64,
) -> (r: Result<u64, ZodError>)
    ensures
        old(zod_margin).spec_consistent_with(*zod_state)
            ==> final(zod_margin).spec_consistent_with(*zod_state),
        match spec_withdraw(*zod_state, *cache, *old(zod_margin), *mint, amount) {
            Err(e) => r == Err::<u64, ZodError>(e) && *final(zod_margin) == *old(zod_margin),
            Ok(margin) => r == Ok::<u64, ZodError>(amount) && *final(zod_margin) == margin,
        },
{
    let col_index = match zod_state.get_collateral_index(mint) {
        Some(i) => i,
        None => {
            return Err(ZodError::InvalidAsset);
        },
    };
    let supply = cache.borrow_cache[col_index].supply_multiplier;
    let borrow = cache.borrow_cache[col_index].borrow_multiplier;
    let actual_col = zod_margin.get_actual_collateral(col_index, supply)?;
    let amount_i80 = WrappedI80F48::from_int(amount as i128)?;
    if !(actual_col.data > amount_i80.data) {
        return Err(ZodError::MarginBelowThreshold);
    }
    let mut new_margin = *zod_margin;
    new_margin.mutate(col_index, WrappedI80F48::from_int(-(amount as i128))?, supply, borrow)?;
    proof {
        let balance = spec_rescaled(
            zod_margin.collateral[col_index as int],
            spec_whole(-amount),
            supply,
            borrow,
        ).unwrap();
        assert(new_margin.collateral =~= zod_margin.with_collateral(
            col_index as int,
            balance,
        ).collateral);
    }
    let omf = new_margin.get_omf(zod_state, cache, true)?;
    let imf = new_margin.get_imf(zod_state)?;
    if !(omf.data > imf.data) {
        return Err(ZodError::MarginBelowThreshold);
    }
    proof {
        if zod_margin.spec_consistent_with(*zod_state) {
            lemma_listed_slot_keeps_consistency(
                *zod_margin,
                new_margin,
                *zod_state,
                *zod_state,
                col_index as int,
            );
        }
    }
    *zod_margin = new_margin;
    Ok(amount)
}

} // verus!
