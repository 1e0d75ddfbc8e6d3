//! Verified core of a block inspector: classification of blockchain
//! transactions as plain transfers, calls to non-contract addresses, or
//! contract invocations with function-selector resolution.
//!
//! The library holds the decision logic only. Fetching blocks, transactions,
//! contract bytecode and token names from a node is left to the surrounding
//! program, which feeds the outcomes of those fetches into the staged
//! classifier defined here.

pub mod classify;
pub mod hex;
pub mod table;
pub mod types;
pub mod units;
