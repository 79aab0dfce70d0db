//! Block-production auditing for a BABE-based proof-of-stake chain.
//!
//! The library holds the rules of the audit: how many blocks each epoch
//! produced, what an era adds up to, which authority owns each secondary
//! slot, how validator sets change and how accounts are named. Reading the
//! chain and delivering alerts is left to the caller.
pub mod config;
pub mod epochs;
pub mod era;
pub mod identity;
pub mod monitor;
pub mod slots;
pub mod traversal;
pub mod validators;

pub use config::{AvailConfig, Command, Opts};
