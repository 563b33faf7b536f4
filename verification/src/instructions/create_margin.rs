//! Creation of a margin account.

use crate::state::margin::ZodMargin;
use crate::state::state::ZodState;
use crate::zod_types::{Identity, WrappedI80F48};
use vstd::prelude::*;

verus! {

/// A new margin account of `authority`: no collateral and no debt.
pub fn process(nonce: u8, authority: Identity, zod_token_account: Identity) -> (r: ZodMargin)
    ensures
        r.nonce == nonce,
        r.authority == authority,
        r.zod_token_account == zod_token_account,
        r.zod_balance@ == 0,
        forall|i: int| 0 <= i < 25 ==> r.collateral[i]@ == 0,
        forall|state: ZodState| r.spec_consistent_with(state),
{
    ZodMargin {
        nonce,
        authority,
        collateral: [WrappedI80F48::zero(); 25],
        zod_token_account,
        zod_balance: WrappedI80F48::zero(),
    }
}

} // verus!
