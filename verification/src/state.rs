//! The protocol's persistent records: the global state and the per-user
//! margin account.

pub mod layout;
pub mod margin;
pub mod state;
pub mod theorems;
