//! Accounting core of a collateralized synthetic-asset margin protocol.
//!
//! Users deposit interest-bearing collateral, mint a debt token against it,
//! and are liquidated, or settled as bankrupt at the cost of a shared loss,
//! when their position is no longer covered.
//!
//! Balances are signed 80.48 fixed-point numbers stored in interest-index
//! units: the actual amount is the stored number times a multiplier that
//! the caller supplies with each operation. Every contract in this crate
//! speaks of a fixed-point number through its raw bits, the integer count
//! of 2^-48 units that it holds.
//!
//! * [`common`]: checked fixed-point arithmetic on raw bits, unit
//!   conversions and the token table.
//! * [`zod_types`]: fixed-point numbers, oracle symbols, identities.
//! * [`state`]: the protocol state, the margin account with its valuations
//!   and margin fractions, what holds of them for every input, and the
//!   fixed-size binary form of both records.
//! * [`instructions`]: the operations, each applied as a whole or not at
//!   all.

pub mod common;
pub mod config;
pub mod errors;
pub mod instructions;
pub mod state;
pub mod zod_types;
