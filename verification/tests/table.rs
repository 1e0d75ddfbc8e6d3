use block_inspector::classify::classify_contract_call;
use block_inspector::hex::parse_selector;
use block_inspector::table::SelectorTable;
use block_inspector::types::NameOutcome;
use block_inspector::types::TxKind;

/// A selector with two colliding signatures returns both, in the table's
/// stored order.
#[test]
fn colliding_signatures_surface_in_stored_order() {
    let mut t = SelectorTable::new();
    assert!(t.add_hex(
        "a9059cbb",
        vec![
            "transfer(address,uint256)".to_string(),
            "altName(address,uint256)".to_string(),
        ]
    ));
    let key = parse_selector("a9059cbb").unwrap();
    let sigs = t.lookup(key).expect("selector must be known");
    assert_eq!(
        sigs,
        &vec![
            "transfer(address,uint256)".to_string(),
            "altName(address,uint256)".to_string(),
        ]
    );

    // The same two signatures, in the same order, surface in a record.
    let kind = classify_contract_call(NameOutcome::Failed, &vec![0xa9, 0x05, 0x9c, 0xbb], &t);
    match kind {
        TxKind::ContractCall {
            function_signatures,
            ..
        } => assert_eq!(
            function_signatures,
            Some(vec![
                "transfer(address,uint256)".to_string(),
                "altName(address,uint256)".to_string(),
            ])
        ),
        other => panic!("expected ContractCall, got {:?}", other),
    }
}

/// An absent selector is a valid lookup outcome, not an error.
#[test]
fn unknown_selector_looks_up_to_nothing() {
    let t = SelectorTable::new();
    assert!(t.lookup(0xa905_9cbb).is_none());
    assert!(!t.contains(0xa905_9cbb));
}

/// The first entry for a key wins; a second add under the same key is
/// rejected and leaves the table unchanged.
#[test]
fn duplicate_key_is_rejected() {
    let mut t = SelectorTable::new();
    assert!(t.add(0xa905_9cbb, vec!["transfer(address,uint256)".to_string()]));
    assert!(!t.add(0xa905_9cbb, vec!["other()".to_string()]));
    let sigs = t.lookup(0xa905_9cbb).unwrap();
    assert_eq!(sigs, &vec!["transfer(address,uint256)".to_string()]);
}

/// A selector of the wrong shape adds nothing.
#[test]
fn malformed_selector_adds_nothing() {
    let mut t = SelectorTable::new();
    assert!(!t.add_hex("A9059CBB", vec!["transfer(address,uint256)".to_string()]));
    assert!(!t.add_hex("a9059cb", vec!["transfer(address,uint256)".to_string()]));
    assert!(!t.add_hex("a9059cbb0", vec!["transfer(address,uint256)".to_string()]));
    assert!(!t.add_hex("", vec!["transfer(address,uint256)".to_string()]));
    assert!(!t.contains(0xa905_9cbb));
}

/// Entries under distinct keys live side by side.
#[test]
fn distinct_keys_coexist() {
    let mut t = SelectorTable::new();
    assert!(t.add_hex("a9059cbb", vec!["transfer(address,uint256)".to_string()]));
    assert!(t.add_hex(
        "095ea7b3",
        vec!["approve(address,uint256)".to_string()]
    ));
    assert_eq!(
        t.lookup(parse_selector("a9059cbb").unwrap()).unwrap(),
        &vec!["transfer(address,uint256)".to_string()]
    );
    assert_eq!(
        t.lookup(parse_selector("095ea7b3").unwrap()).unwrap(),
        &vec!["approve(address,uint256)".to_string()]
    );
}
