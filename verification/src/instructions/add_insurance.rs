//! Payment into the insurance fund.

use crate::errors::ZodError;
use crate::state::state::ZodState;
use vstd::prelude::*;

verus! {

/// Adds `amount` to the insurance fund and returns the number of tokens to
/// take from the payer. A fund beyond 64 bits is an arithmetic failure.
pub fn process(zod_state: &mut ZodState, amount: u64) -> (r: Result<u64, ZodError>)
    ensures
        old(zod_state).insurance + amount <= u64::MAX ==> r == Ok::<u64, ZodError>(amount)
            && *final(zod_state) == (ZodState {
            insurance: (old(zod_state).insurance + amount) as u64,
            ..*old(zod_state)
        }),
        old(zod_state).insurance + amount > u64::MAX ==> r == Err::<u64, ZodError>(
            ZodError::ArithmeticFailure,
        ) && *final(zod_state) == *old(zod_state),
{
    if amount > u64::MAX - zod_state.insurance {
        return Err(ZodError::ArithmeticFailure);
    }
    zod_state.insurance = zod_state.insurance + amount;
    Ok(amount)
}

} // verus!
