//! An owner-gated credit ledger for a CosmWasm host, verified with Verus.
//!
//! The ledger keeps one unsigned balance per canonical address in the host's
//! key-value store. Only the address that initialised the ledger may add
//! credits; anyone may read a balance.
//!
//! The calls in `contract` work on any host that keeps the contracts of
//! `traits`; `mock` shows that the in-memory host of `cosmwasm_std` does.

pub mod contract;
pub mod env;
pub mod error;
pub mod host;
pub mod laws;
pub mod ledger;
pub mod mock;
pub mod model;
pub mod msg;
pub mod record;
pub mod state;
pub mod traits;
