//! Deposit of collateral.

use crate::errors::ZodError;
use crate::state::margin::{lemma_listed_slot_keeps_consistency, spec_rescaled, ZodMargin};
use crate::state::state::{MarketCache, ZodState};
use crate::zod_types::{spec_whole, Identity, WrappedI80F48};
use vstd::prelude::*;

verus! {

/// The catalog slot that a deposit of mint `mint` goes to and the scaled
/// balance of that slot after `amount` is added to it.
pub open spec fn spec_deposit(
    state: ZodState,
    cache: MarketCache,
    margin: ZodMargin,
    mint: Identity,
    amount: u64,
) -> Result<(int, WrappedI80F48), ZodError> {
    match state.spec_collateral_index(mint, 0) {
        None => Err(ZodError::InvalidAsset),
        Some(index) => match spec_rescaled(
            margin.collateral[index],
            spec_whole(amount as int),
            cache.borrow_cache[index].supply_multiplier,
            cache.borrow_cache[index].borrow_multiplier,
        ) {
            Err(e) => Err(e),
            Ok(balance) => Ok((index, balance)),
        },
    }
}

/// Adds `amount` of the collateral of mint `mint` to `zod_margin` and
/// returns the number of tokens to take from the depositor. A mint that
/// the catalog does not list is an invalid asset.
pub fn process(
    zod_state: &ZodState,
    cache: &MarketCache,
    zod_margin: &mut ZodMargin,
    mint: &Identity,
    amount: u64,
) -> (r: Result<u64, ZodError>)
    ensures
        old(zod_margin).spec_consistent_with(*zod_state)
            ==> final(zod_margin).spec_consistent_with(*zod_state),
        match spec_deposit(*zod_state, *cache, *old(zod_margin), *mint, amount) {
            Err(e) => r == Err::<u64, ZodError>(e) && *final(zod_margin) == *old(zod_margin),
            Ok((index, balance)) => r == Ok::<u64, ZodError>(amount)
                && final(zod_margin).is_update_of(
                *old(zod_margin),
                index,
                balance,
                old(zod_margin).zod_balance,
            ),
        },
{
    let col_index = match zod_state.get_collateral_index(mint) {
        Some(i) => i,
        None => {
            return Err(ZodError::InvalidAsset);
        },
    };
    let amount_i80 = WrappedI80F48::from_int(amount as i128)?;
    zod_margin.mutate(
        col_index,
        amount_i80,
        cache.borrow_cache[col_index].supply_multiplier,
        cache.borrow_cache[col_index].borrow_multiplier,
    )?;
    proof {
        if old(zod_margin).spec_consistent_with(*zod_state) {
            lemma_listed_slot_keeps_consistency(
                *old(zod_margin),
                *zod_margin,
                *zod_state,
                *zod_state,
                col_index as int,
            );
        }
    }
    Ok(amount)
}

} // verus!
