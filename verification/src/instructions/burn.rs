//! Repayment of debt by burning debt tokens.

use crate::errors::ZodError;
use crate::state::margin::{lemma_debt_keeps_consistency, spec_rescaled, ZodMargin};
use crate::state::state::{spec_borrowed_after, ZodState};
use crate::zod_types::{spec_whole, WrappedI80F48};
use vstd::prelude::*;

verus! {

/// The records after an account repays `amount` of debt: its debt and the
/// protocol's total debt fall by `amount`. The account must owe more than
/// it repays; a repayment of all it owes or more is an arithmetic failure.
pub open spec fn spec_burn(state: ZodState, margin: ZodMargin, amount: u64) -> Result<
    (ZodState, ZodMargin),
    ZodError,
> {
    let soc = state.soc_loss_multiplier;
    match margin.spec_actual_zod_balance(soc) {
        Err(e) => Err(e),
        Ok(zod_balance) => if zod_balance@ > spec_whole(amount as int)@ {
            let repaid = spec_whole(-amount);
            match spec_rescaled(margin.zod_balance, repaid, soc, soc) {
                Err(e) => Err(e),
                Ok(debt) => match spec_borrowed_after(state.total_zod_borrowed, soc, repaid) {
                    Err(e) => Err(e),
                    Ok(total) => Ok(
                        (
                            ZodState { total_zod_borrowed: total, ..state },
                            ZodMargin { zod_balance: debt, ..margin },
                        ),
                    ),
                },
            }
        } else {
            Err(ZodError::ArithmeticFailure)
        },
    }
}

/// Repays `amount` of the debt of `zod_margin` and returns the number of
/// debt tokens to burn. Either all changes are applied or none is.
pub fn process(zod_state: &mut ZodState, zod_margin: &mut ZodMargin, amount: u64) -> (r: Result<
    u64,
    ZodError,
>)
    ensures
        old(zod_margin).spec_consistent_with(*old(zod_state))
            ==> final(zod_margin).spec_consistent_with(*final(zod_state)),
        match spec_burn(*old(zod_state), *old(zod_margin), amount) {
            Err(e) => r == Err::<u64, ZodError>(e) && *final(zod_state) == *old(zod_state)
                && *final(zod_margin) == *old(zod_margin),
            Ok((state, margin)) => r == Ok::<u64, ZodError>(amount) && *final(zod_state) == state
                && *final(zod_margin) == margin,
        },
{
    let soc = zod_state.soc_loss_multiplier;
    let zod_balance = zod_margin.get_actual_zod_balance(soc)?;
    let amount_i80 = WrappedI80F48::from_int(amount as i128)?;
    if !(zod_balance.data > amount_i80.data) {
        return Err(ZodError::ArithmeticFailure);
    }
    let repaid = WrappedI80F48::from_int(-(amount as i128))?;
    let mut new_state = *zod_state;
    let mut new_margin = *zod_margin;
    new_margin.zod_mutate(repaid, soc)?;
    new_state.mutate_zod_borrowed(repaid)?;
    proof {
        if zod_margin.spec_consistent_with(*zod_state) {
            lemma_debt_keeps_consistency(*zod_margin, new_margin, *zod_state, new_state);
        }
    }
    *zod_state = new_state;
    *zod_margin = new_margin;
    Ok(amount)
}

} // verus!
