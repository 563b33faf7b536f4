//! Typed failures of the margin protocol.

use vstd::prelude::*;

verus! {

/// Why an operation of the protocol was rejected. A rejected operation
/// leaves every account and the protocol state as they were.
#[derive(Clone, Copy, Debug, PartialEq, Eq, Structural)]
pub enum ZodError {
    /// A fixed-point operation overflowed, or divided by zero.
    ArithmeticFailure,
    /// A price that had to be consulted is too old.
    StaleOracle,
    /// The insurance fund holds less than the amount to take from it.
    InsufficientInsurance,
    /// The collateral mint or index is not registered, or does not match.
    InvalidAsset,
    /// The account's health does not allow the mint or withdrawal.
    MarginBelowThreshold,
    /// The account is not eligible for the liquidation step asked for.
    NotLiquidatable,
    /// The loss to socialize is not below the whole outstanding debt.
    InsolvencyOverflow,
}

} // verus!
