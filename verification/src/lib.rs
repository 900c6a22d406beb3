//! Connection-record issuance and lifecycle.
//!
//! The library models a ledger program that binds off-chain objects to unique
//! on-chain records: a singleton configuration with a pause flag and a
//! sequential identifier counter, one connection record per issued token line,
//! holder-authenticated release, and authority-gated consensus-hash rotation.

pub mod errors;
pub mod events;
pub mod identity;
pub mod ledger;
pub mod lifecycle;
pub mod records;
pub mod store;
pub mod token;
pub mod validate;
