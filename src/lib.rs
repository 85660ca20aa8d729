//! A supply-capped, permissioned collection of uniquely numbered items:
//! pre-allocation into the creator's inventory, paid minting inside a time
//! window, pledging and burning under a burn policy, transfers, and batches
//! of these that record each item's outcome. Every operation is a verified
//! function on `ledger::Collection` whose contract states its exact effect.

pub mod admin;
pub mod admission;
pub mod approvals;
pub mod authorization;
pub mod batch;
pub mod decimal;
pub mod error;
pub mod laws;
pub mod ledger;
pub mod mint;
pub mod query;
pub mod store;
pub mod types;
