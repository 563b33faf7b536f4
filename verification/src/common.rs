//! Building blocks shared by the protocol's state and instructions.

pub mod bps;
pub mod currency;
pub mod error;
pub mod math;
pub mod token;
