//! Registration of a vault.

use crate::errors::ZodError;
use crate::state::state::ZodState;
use crate::zod_types::Identity;
use vstd::prelude::*;

verus! {

/// Index of the first catalog slot at or after `from` that holds no asset.
pub open spec fn spec_first_empty_slot(state: ZodState, from: int) -> Option<int>
    decreases 25 - from,
{
    if from < 0 || from >= 25 {
        None
    } else if state.collaterals[from].spec_is_empty() {
        Some(from)
    } else {
        spec_first_empty_slot(state, from + 1)
    }
}

/// The slot that a vault for mint `mint` is written to: the mint must be
/// listed in the catalog with no vault yet, and the vault goes to the
/// first catalog slot that holds no asset.
pub open spec fn spec_vault_slot(state: ZodState, mint: Identity) -> Result<int, ZodError> {
    match state.spec_collateral_index(mint, 0) {
        None => Err(ZodError::InvalidAsset),
        Some(listed) => if !state.vaults[listed].spec_is_empty() {
            Err(ZodError::InvalidAsset)
        } else {
            match spec_first_empty_slot(state, 0) {
                None => Err(ZodError::InvalidAsset),
                Some(slot) => Ok(slot),
            }
        },
    }
}

/// Registers `vault` for the collateral of mint `mint`. A mint that the
/// catalog does not list, one that has a vault already, and a catalog
/// without a free slot are invalid assets.
pub fn process(zod_state: &mut ZodState, mint: &Identity, vault: Identity) -> (r: Result<
    (),
    ZodError,
>)
    ensures
        match spec_vault_slot(*old(zod_state), *mint) {
            Err(e) => r == Err::<(), ZodError>(e) && *final(zod_state) == *old(zod_state),
            Ok(slot) => r is Ok && final(zod_state).vaults@ == old(zod_state).vaults@.update(
                slot,
                vault,
            ) && *final(zod_state) == (ZodState {
                vaults: final(zod_state).vaults,
                ..*old(zod_state)
            }),
        },
{
    let listed = match zod_state.get_collateral_index(mint) {
        Some(i) => i,
        None => {
            return Err(ZodError::InvalidAsset);
        },
    };
    if !zod_state.vaults[listed].is_empty() {
        return Err(ZodError::InvalidAsset);
    }
    let mut index: usize = 0;
    while index < 25
        invariant
            index <= 25,
            *zod_state == *old(zod_state),
            spec_vault_slot(*zod_state, *mint) == match spec_first_empty_slot(*zod_state, 0) {
                None => Err::<int, ZodError>(ZodError::InvalidAsset),
                Some(slot) => Ok::<int, ZodError>(slot),
            },
            spec_first_empty_slot(*zod_state, 0) == spec_first_empty_slot(
                *zod_state,
                index as int,
            ),
        decreases 25 - index,
    {
        if zod_state.collaterals[index].is_empty() {
            zod_state.vaults[index] = vault;
            return Ok(());
        }
        index += 1;
    }
    Err(ZodError::InvalidAsset)
}

} // verus!
