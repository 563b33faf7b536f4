//! Constants of the protocol.

use vstd::prelude::*;

verus! {

/// Number of collateral slots in the catalog and in every margin account.
pub const MAX_COLLATERALS: usize = 25;

/// Initial margin requirement, in permil, multiplied by 1000.
pub const SPOT_INITIAL_MARGIN_REQ: u32 = 1_100_000;

/// Maintenance margin requirement, in permil, multiplied by 1000.
pub const SPOT_MAINT_MARGIN_REQ: u32 = 1_030_000;

/// Value, in the smallest unit of the quote currency, up to which what is
/// left of a collateral counts as dust.
pub const DUST_THRESHOLD: i64 = 1_000_000;

} // verus!
