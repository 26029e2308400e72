//! A to-do ledger for a CosmWasm chain.
//!
//! One administrator owns the ledger.  The owner creates, updates and deletes
//! entries; anybody may look one up or page through them in ascending order of
//! their identifiers.  Identifiers come from a persisted counter and are never
//! reused.
//!
//! The entries, the counter and the owner live in the chain's key-value
//! storage, reached through `cw_storage_plus`.  What those calls do is assumed
//! in `ledger`, one small function per call; everything that decides or
//! computes is verified against those assumptions.
pub mod contract;
pub mod error;
pub mod ledger;
pub mod model;
pub mod msg;
pub mod state;
pub mod theorems;
