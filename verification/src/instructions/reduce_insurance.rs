//! Withdrawal from the insurance fund.

use crate::errors::ZodError;
use crate::state::state::ZodState;
use crate::zod_types::Identity;
use vstd::prelude::*;

verus! {

/// Takes `amount` out of the insurance fund and returns the number of
/// tokens to hand to the administrator. The fund is kept in the collateral
/// of catalog slot 0: any other mint is an invalid asset. Taking more than
/// the fund holds is rejected.
pub fn process(zod_state: &mut ZodState, mint: &Identity, amount: u64) -> (r: Result<
    u64,
    ZodError,
>)
    ensures
        ({
            let first = old(zod_state).spec_collateral_index(*mint, 0) == Some(0int);
            let held = old(zod_state).insurance;
            if !first {
                r == Err::<u64, ZodError>(ZodError::InvalidAsset) && *final(zod_state)
                    == *old(zod_state)
            } else if amount > held {
                r == Err::<u64, ZodError>(ZodError::InsufficientInsurance) && *final(zod_state)
                    == *old(zod_state)
            } else {
                r == Ok::<u64, ZodError>(amount) && *final(zod_state) == (ZodState {
                    insurance: (held - amount) as u64,
                    ..*old(zod_state)
                })
            }
        }),
{
    match zod_state.get_collateral_index(mint) {
        Some(col_index) => {
            if col_index != 0 {
                return Err(ZodError::InvalidAsset);
            }
        },
        None => {
            return Err(ZodError::InvalidAsset);
        },
    }
    if amount > zod_state.insurance {
        return Err(ZodError::InsufficientInsurance);
    }
    zod_state.insurance = zod_state.insurance - amount;
    Ok(amount)
}

} // verus!
