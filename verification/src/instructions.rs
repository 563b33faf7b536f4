//! The operations of the protocol. Each works on the records and on one
//! snapshot of prices and indices, and either applies all of its changes
//! or none; what has to be moved between token accounts is returned to the
//! caller.

pub mod add_insurance;
pub mod add_vaults;
pub mod burn;
pub mod create_margin;
pub mod deposit;
pub mod init_state;
pub mod liquidate;
pub mod mint;
pub mod reduce_insurance;
pub mod settle_bankruptcy;
pub mod withdraw;
