//! Minting of debt against collateral.

use crate::errors::ZodError;
use crate::state::margin::{lemma_debt_keeps_consistency, spec_rescaled, ZodMargin};
use crate::state::state::{spec_borrowed_after, MarketCache, ZodState};
use crate::zod_types::{spec_whole, WrappedI80F48};
use vstd::prelude::*;

verus! {

/// The records after `amount` of debt is minted to an account: its debt
/// and the protocol's total debt rise by `amount`. The account's open
/// margin fraction must then exceed its initial margin fraction.
pub open spec fn spec_mint(
    state: ZodState,
    cache: MarketCache,
    margin: ZodMargin,
    amount: u64,
) -> Result<(ZodState, ZodMargin), ZodError> {
    let soc = state.soc_loss_multiplier;
    let minted = spec_whole(amount as int);
    match spec_rescaled(margin.zod_balance, minted, soc, soc) {
        Err(e) => Err(e),
        Ok(debt) => match spec_borrowed_after(state.total_zod_borrowed, soc, minted) {
            Err(e) => Err(e),
            Ok(total) => {
                let new_margin = ZodMargin { zod_balance: debt, ..margin };
                let new_state = ZodState { total_zod_borrowed: total, ..state };
                match new_margin.spec_omf(new_state, cache, true) {
                    Err(e) => Err(e),
                    Ok(omf) => match new_margin.spec_imf(new_state) {
                        Err(e) => Err(e),
                        Ok(imf) => if omf@ > imf@ {
                            Ok((new_state, new_margin))
                        } else {
                            Err(ZodError::MarginBelowThreshold)
                        },
                    },
                }
            },
        },
    }
}

/// Mints `amount` of debt to `zod_margin` and returns the number of debt
/// tokens to hand out. A mint that would leave the open margin fraction at
/// or under the initial margin fraction is rejected as below threshold.
/// Either all changes are applied or none is.
pub fn process(
    zod_state: &mut ZodState,
    cache: &MarketCache,
    zod_margin: &mut ZodMargin,
    amount: u64,
) -> (r: Result<u64, ZodError>)
    ensures
        old(zod_margin).spec_consistent_with(*old(zod_state))
            ==> final(zod_margin).spec_consistent_with(*final(zod_state)),
        match spec_mint(*old(zod_state), *cache, *old(zod_margin), amount) {
            Err(e) => r == Err::<u64, ZodError>(e) && *final(zod_state) == *old(zod_state)
                && *final(zod_margin) == *old(zod_margin),
            Ok((state, margin)) => r == Ok::<u64, ZodError>(amount) && *final(zod_state) == state
                && *final(zod_margin) == margin,
        },
{
    let soc = zod_state.soc_loss_multiplier;
    let amount_i80 = WrappedI80F48::from_int(amount as i128)?;
    let mut new_state = *zod_state;
    let mut new_margin = *zod_margin;
    new_margin.zod_mutate(amount_i80, soc)?;
    new_state.mutate_zod_borrowed(amount_i80)?;
    let omf = new_margin.get_omf(&new_state, cache, true)?;
    let imf = new_margin.get_imf(&new_state)?;
    if !(omf.data > imf.data) {
        return Err(ZodError::MarginBelowThreshold);
    }
    proof {
        if zod_margin.spec_consistent_with(*zod_state) {
            lemma_debt_keeps_consistency(*zod_margin, new_margin, *zod_state, new_state);
        }
    }
    *zod_state = new_state;
    *zod_margin = new_margin;
    Ok(amount)
}

} // verus!
