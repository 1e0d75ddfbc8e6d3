//! The transaction classifier: a stateless decision tree run once per
//! transaction.
//!
//! Classification is staged so that the surrounding program performs a fetch
//! only when the tree asks for it: `begin` decides from the recipient alone
//! whether bytecode must be fetched; `on_code` decides from the fetched
//! bytecode whether the recipient is a contract; `classify_contract_call`
//! builds the contract-call record from the token-name outcome, the payload
//! and the selector table. A fetch failure degrades the one transaction's
//! classification and never aborts the batch: every stage is total and each
//! transaction yields exactly one record.

use crate::hex::selector_hex_chars;
use crate::hex::selector_hex_string;
use crate::hex::selector_key;
use crate::hex::selector_key_of;
use crate::table::SelectorTable;
use crate::types::Address;
use crate::types::ClassificationResult;
use crate::types::CodeFetchOutcome;
use crate::types::NameOutcome;
use crate::types::Transaction;
use crate::types::TxKind;
use vstd::prelude::*;

verus! {

/// What the first stage decided: either the transaction is classified
/// already, or the recipient's bytecode must be fetched first.
#[derive(Debug, PartialEq)]
pub enum Stage {
    Decided(TxKind),
    NeedCode(Address),
}

/// What the bytecode stage decided: either the transaction is classified
/// already, or the recipient is a contract and its token name should be
/// resolved next.
#[derive(Debug, PartialEq)]
pub enum CodeStep {
    Decided(TxKind),
    NeedName,
}

/// The first stage as a function of the recipient: a transaction without a
/// recipient is decided NonContractCall at once, so no bytecode fetch is ever
/// requested for it; otherwise the recipient's bytecode is requested.
pub open spec fn spec_begin(to: Option<Address>) -> Stage {
    match to {
        None => Stage::Decided(TxKind::NonContractCall { code_fetch_failed: false }),
        Some(a) => Stage::NeedCode(a),
    }
}

/// The bytecode stage as a function of the fetch outcome: a failed fetch
/// degrades to NonContractCall with the diagnostic flag set, empty code means
/// an externally-owned account and a plain transfer, and non-empty code means
/// a contract.
pub open spec fn spec_on_code(outcome: CodeFetchOutcome) -> CodeStep {
    match outcome {
        CodeFetchOutcome::Failed => CodeStep::Decided(
            TxKind::NonContractCall { code_fetch_failed: true },
        ),
        CodeFetchOutcome::Fetched(code) => if code@.len() == 0 {
            CodeStep::Decided(TxKind::PlainTransfer)
        } else {
            CodeStep::NeedName
        },
    }
}

/// Whether a record's token name reflects the name-resolution outcome: the
/// resolved name when there is one, absent after a failure.
pub open spec fn token_name_matches(token_name: Option<String>, name: NameOutcome) -> bool {
    match name {
        NameOutcome::Failed => token_name is None,
        NameOutcome::Resolved(n) => token_name matches Some(t) && t@ == n@,
    }
}

/// Whether a record's selector fields reflect the payload and the table: a
/// payload under four bytes carries no selector and no signatures; otherwise
/// the selector is the first four payload bytes as lowercase hex, and the
/// signatures are exactly the table's entry for that selector, in stored
/// order, or absent when the table does not know it.
pub open spec fn selector_fields_match(
    selector: Option<String>,
    function_signatures: Option<Vec<String>>,
    input: Seq<u8>,
    table: Map<u32, Seq<Seq<char>>>,
) -> bool {
    if input.len() < 4 {
        selector is None && function_signatures is None
    } else {
        &&& selector matches Some(s) && s@ == selector_hex_chars(input)
        &&& (table.contains_key(selector_key(input)) ==> (function_signatures matches Some(v)
            && v.deep_view() == table[selector_key(input)]))
        &&& (!table.contains_key(selector_key(input)) ==> function_signatures is None)
    }
}

/// Full characterization of the record built for a contract invocation.
pub open spec fn contract_call_ok(
    k: TxKind,
    name: NameOutcome,
    input: Seq<u8>,
    table: Map<u32, Seq<Seq<char>>>,
) -> bool {
    k matches TxKind::ContractCall { token_name, selector, function_signatures }
        && token_name_matches(token_name, name) && selector_fields_match(
        selector,
        function_signatures,
        input,
        table,
    )
}

/// Runs the first stage of the decision tree on one transaction.
pub fn begin(tx: &Transaction) -> (s: Stage)
    ensures
        s == spec_begin(tx.to),
{
    match tx.to {
        None => Stage::Decided(TxKind::NonContractCall { code_fetch_failed: false }),
        Some(a) => Stage::NeedCode(a),
    }
}

/// Runs the bytecode stage of the decision tree on the fetch outcome.
pub fn on_code(outcome: &CodeFetchOutcome) -> (s: CodeStep)
    ensures
        s == spec_on_code(*outcome),
{
    match outcome {
        CodeFetchOutcome::Failed => CodeStep::Decided(
            TxKind::NonContractCall { code_fetch_failed: true },
        ),
        CodeFetchOutcome::Fetched(code) => if code.len() == 0 {
            CodeStep::Decided(TxKind::PlainTransfer)
        } else {
            CodeStep::NeedName
        },
    }
}

/// Copies a signature list out of the table.
fn clone_signatures(v: &Vec<String>) -> (r: Vec<String>)
    ensures
        r.deep_view() == v.deep_view(),
{
    let mut out: Vec<String> = Vec::new();
    let mut i: usize = 0;
    while i < v.len()
        invariant
            i <= v@.len(),
            out@ =~= v@.take(i as int),
        decreases v@.len() - i,
    {
        out.push(v[i].clone());
        i = i + 1;
    }
    proof {
        assert(out@ =~= v@);
        assert(out.deep_view() =~= v.deep_view());
    }
    out
}

/// Builds the record for a transaction whose recipient holds non-empty code:
/// the token name as resolved (or absent after a resolution failure, which
/// does not stop selector handling), the selector extracted from the first
/// four payload bytes when the payload is long enough, and the table's
/// signatures for it when it is known.
pub fn classify_contract_call(name: NameOutcome, input: &Vec<u8>, table: &SelectorTable) -> (k:
    TxKind)
    requires
        table.wf(),
    ensures
        contract_call_ok(k, name, input@, table@),
{
    let token_name = match name {
        NameOutcome::Failed => None,
        NameOutcome::Resolved(n) => Some(n),
    };
    if input.len() < 4 {
        return TxKind::ContractCall { token_name, selector: None, function_signatures: None };
    }
    let sel = selector_hex_string(input);
    let key = selector_key_of(input);
    let function_signatures = match table.lookup(key) {
        Some(v) => Some(clone_signatures(v)),
        None => None,
    };
    TxKind::ContractCall { token_name, selector: Some(sel), function_signatures }
}

/// Attaches a classification to the transaction's identity, producing the
/// record that is emitted for it.
pub fn make_result(tx: &Transaction, kind: TxKind) -> (r: ClassificationResult)
    ensures
        r.hash == tx.hash,
        r.index == tx.index,
        r.from == tx.from,
        r.to == tx.to,
        r.value_wei == tx.value_wei,
        r.gas == tx.gas,
        r.gas_price == tx.gas_price,
        r.kind == kind,
{
    ClassificationResult {
        hash: tx.hash,
        index: tx.index,
        from: tx.from,
        to: tx.to,
        value_wei: tx.value_wei,
        gas: tx.gas,
        gas_price: tx.gas_price,
        kind,
    }
}

/// The token name carried by a contract-call record, as a sequence of
/// characters.
pub open spec fn contract_token_name(k: TxKind) -> Option<Seq<char>>
    recommends
        k is ContractCall,
{
    match k {
        TxKind::ContractCall { token_name, .. } => match token_name {
            Some(t) => Some(t@),
            None => None,
        },
        _ => None,
    }
}

/// The selector carried by a contract-call record, as a sequence of
/// characters.
pub open spec fn contract_selector(k: TxKind) -> Option<Seq<char>>
    recommends
        k is ContractCall,
{
    match k {
        TxKind::ContractCall { selector, .. } => match selector {
            Some(s) => Some(s@),
            None => None,
        },
        _ => None,
    }
}

/// The signature list carried by a contract-call record, as sequences of
/// characters.
pub open spec fn contract_signatures(k: TxKind) -> Option<Seq<Seq<char>>>
    recommends
        k is ContractCall,
{
    match k {
        TxKind::ContractCall { function_signatures, .. } => match function_signatures {
            Some(v) => Some(v.deep_view()),
            None => None,
        },
        _ => None,
    }
}

/// Law: a transaction without a recipient is classified NonContractCall at
/// the first stage, whatever any bytecode fetch would have returned — the
/// tree never even asks for one, and the diagnostic flag stays clear.
pub proof fn lemma_no_recipient_is_non_contract_call(to: Option<Address>)
    requires
        to is None,
    ensures
        spec_begin(to) == Stage::Decided(TxKind::NonContractCall { code_fetch_failed: false }),
{
}

/// Law: a transaction whose recipient's fetched code is empty is classified
/// PlainTransfer.
pub proof fn lemma_empty_code_is_plain_transfer(code: Vec<u8>)
    requires
        code@.len() == 0,
    ensures
        spec_on_code(CodeFetchOutcome::Fetched(code)) == CodeStep::Decided(TxKind::PlainTransfer),
{
}

/// Law: when the payload holds at least four bytes, the record's selector is
/// exactly those four bytes rendered as eight lowercase hex characters.
pub proof fn lemma_selector_extracted(
    k: TxKind,
    name: NameOutcome,
    input: Seq<u8>,
    table: Map<u32, Seq<Seq<char>>>,
)
    requires
        contract_call_ok(k, name, input, table),
        input.len() >= 4,
    ensures
        contract_selector(k) == Some(selector_hex_chars(input)),
{
}

/// Law: a payload under four bytes still yields a ContractCall record — not
/// NonContractCall — only with the selector and the signatures absent.
pub proof fn lemma_short_payload_still_contract_call(
    k: TxKind,
    name: NameOutcome,
    input: Seq<u8>,
    table: Map<u32, Seq<Seq<char>>>,
)
    requires
        contract_call_ok(k, name, input, table),
        input.len() < 4,
    ensures
        k is ContractCall,
        contract_selector(k) is None,
        contract_signatures(k) is None,
{
}

/// Law: token-name resolution and selector resolution are independent. A
/// record built after a name-resolution failure carries no token name but
/// exactly the selector and the signatures of a record built, for the same
/// payload and table, after a successful resolution.
pub proof fn lemma_name_failure_keeps_selector(
    k_failed: TxKind,
    k_named: TxKind,
    name: String,
    input: Seq<u8>,
    table: Map<u32, Seq<Seq<char>>>,
)
    requires
        contract_call_ok(k_failed, NameOutcome::Failed, input, table),
        contract_call_ok(k_named, NameOutcome::Resolved(name), input, table),
    ensures
        contract_token_name(k_failed) is None,
        contract_token_name(k_named) == Some(name@),
        contract_selector(k_failed) == contract_selector(k_named),
        contract_signatures(k_failed) == contract_signatures(k_named),
{
}

} // verus!
