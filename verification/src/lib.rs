//! Issuance ledger for a bounded collection of uniquely identified
//! collectible assets, minted in exchange for payment-token deposits.
//!
//! The core validates a deposit notification against a fixed global supply
//! ceiling and a per-participant quota, assigns a deterministic asset
//! identifier, updates the ledger, and composes the pair of outbound calls
//! (payment transfer, asset mint) that the host must execute atomically with
//! the state change.
use vstd::prelude::*;

pub mod contract;
pub mod error;
pub mod ident;
pub mod laws;
pub mod msg;
pub mod order;
pub mod state;

verus! {

/// Fixed ceiling on the total number of assets ever issuable.
pub const NFT_CEILING: u128 = 2000;

} // verus!
