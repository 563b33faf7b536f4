//! Failures of the shared building blocks.

use vstd::prelude::*;

verus! {

/// What can go wrong in the shared building blocks.
#[derive(Clone, Copy, Debug, PartialEq, Eq, Structural)]
pub enum ErrorCode {
    /// A problem occurred when running the memo program.
    MemoFailure,
    /// A computation left the range of its type.
    MathFailure,
    /// A value could not be converted.
    ConversionFailure,
    /// The oracle could not give an accurate price.
    PriceOracleIssue,
    /// The oracle is invalid.
    InvalidOracle,
}

} // verus!
