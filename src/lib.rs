//! Migration coordination for addressable contracts: the contract-mode check,
//! the bounded subscriber registry, the migration-complete broadcast and the
//! self-healing rewrite of a subscriber's address.

pub mod errors;
pub mod execute;
pub mod laws;
pub mod mode;
pub mod msg;
pub mod msg_types;
pub mod query;
pub mod state;
