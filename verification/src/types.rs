//! Plain data model of the transactions the classifier inspects and of the
//! records it produces.
//!
//! Values of these types are built by the surrounding program from whatever
//! the node returned; the library itself never talks to a node.

use vstd::prelude::*;

verus! {

/// A 20-byte account address. The zero address is a valid sentinel meaning
/// "no recipient".
#[derive(Clone, Copy, Debug, PartialEq, Eq)]
pub struct Address {
    pub bytes: [u8; 20],
}

/// One mined transaction, as far as the classifier reads it.
///
/// The value is held in wei as a 128-bit integer; amounts beyond that range
/// are outside the domain of this model and must be rejected by whoever
/// builds the `Transaction`.
#[derive(Clone, Debug)]
pub struct Transaction {
    /// Transaction hash.
    pub hash: [u8; 32],
    /// Position within the block; absent only for pending transactions,
    /// which must not occur in a mined block.
    pub index: Option<u64>,
    /// Sender address.
    pub from: Address,
    /// Recipient address; absent for contract-creation transactions.
    pub to: Option<Address>,
    /// Transferred amount in wei.
    pub value_wei: u128,
    /// Gas limit of the transaction.
    pub gas: u128,
    /// Gas price; absent under certain fee-market transaction types.
    pub gas_price: Option<u128>,
    /// Raw call input payload.
    pub input: Vec<u8>,
}

/// Outcome of fetching the recipient's bytecode, as reported by the
/// surrounding program.
#[derive(Clone, Debug)]
pub enum CodeFetchOutcome {
    /// The fetch itself failed.
    Failed,
    /// The fetch succeeded and returned these bytes (possibly none).
    Fetched(Vec<u8>),
}

/// Outcome of asking the recipient contract for its declared token name.
#[derive(Clone, Debug)]
pub enum NameOutcome {
    /// The contract does not implement the call, or the call failed.
    Failed,
    /// The contract reported this name.
    Resolved(String),
}

/// How a transaction was classified.
#[derive(Clone, Debug, PartialEq)]
pub enum TxKind {
    /// The recipient is an externally-owned account: a plain value transfer.
    PlainTransfer,
    /// There is no contract to inspect: either the transaction has no
    /// recipient, or the recipient's code could not be fetched (then
    /// `code_fetch_failed` is set as a diagnostic).
    NonContractCall { code_fetch_failed: bool },
    /// The recipient is a contract.
    ContractCall {
        /// Declared token name, when the contract reported one.
        token_name: Option<String>,
        /// First four payload bytes as eight lowercase hex characters;
        /// absent when the payload is shorter than four bytes.
        selector: Option<String>,
        /// Known signatures for the selector, in the table's stored order;
        /// absent when the selector is absent or not in the table.
        function_signatures: Option<Vec<String>>,
    },
}

/// The record emitted for one transaction: its identity together with its
/// classification.
#[derive(Clone, Debug)]
pub struct ClassificationResult {
    pub hash: [u8; 32],
    pub index: Option<u64>,
    pub from: Address,
    pub to: Option<Address>,
    pub value_wei: u128,
    pub gas: u128,
    pub gas_price: Option<u128>,
    pub kind: TxKind,
}

} // verus!
