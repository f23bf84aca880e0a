use dna_core::filter::{
    DeclaredContract, DeclaredContractFilter, DeployedContract, DeployedContractFilter, Event,
    EventFilter, Filter, HeaderFilter, InvokeTransactionV0, InvokeTransactionV1, L2ToL1Message,
    L2ToL1MessageFilter, NonceUpdate, NonceUpdateFilter, StateUpdateFilter, StorageDiff,
    StorageDiffFilter, Transaction, TransactionFilter, TransactionVariant, FieldElement,
};

fn fe(value: u64) -> FieldElement {
    FieldElement::from_u64(value)
}

fn invoke_v0(address: u64, selector: u64, calldata: &[u64]) -> Transaction {
    Transaction {
        transaction: Some(TransactionVariant::InvokeV0(InvokeTransactionV0 {
            contract_address: Some(fe(address)),
            entry_point_selector: Some(fe(selector)),
            calldata: calldata.iter().map(|v| fe(*v)).collect(),
        })),
    }
}

#[test]
fn filter_header_builders() {
    assert!(!HeaderFilter::new().weak);
    assert!(HeaderFilter::weak().weak);
}

#[test]
fn filter_build_defaults_to_weak_header() {
    let mut filter = Filter::default();
    let built = filter.build();
    assert_eq!(built.header, Some(HeaderFilter { weak: true }));

    let mut filter = Filter::default();
    filter.with_header(HeaderFilter::new());
    let built = filter.build();
    assert_eq!(built.header, Some(HeaderFilter { weak: false }));
}

#[test]
fn filter_builder_collects_parts() {
    let mut filter = Filter::default();
    filter
        .with_header(HeaderFilter::new())
        .add_event(|ef| ef.with_from_address(fe(7)))
        .add_transaction(|mut tf| {
            tf.invoke_transaction_v0(|f| f.with_contract_address(fe(1)));
            tf.build()
        })
        .add_message(|mf| mf.with_to_address(fe(9)))
        .with_state_update(
            StateUpdateFilter::default().add_storage_diff(|sd| sd.with_contract_address(fe(3))),
        );
    let built = filter.build();
    assert_eq!(built.events.len(), 1);
    assert_eq!(built.events[0].from_address, Some(fe(7)));
    assert_eq!(built.transactions.len(), 1);
    assert_eq!(built.messages.len(), 1);
    assert_eq!(built.messages[0].to_address, Some(fe(9)));
    let state_update = built.state_update.unwrap();
    assert_eq!(state_update.storage_diffs.len(), 1);
    assert_eq!(state_update.storage_diffs[0].contract_address, Some(fe(3)));
}

#[test]
fn filter_transaction_v0_matches_by_fields_and_prefix() {
    let tx = invoke_v0(1, 2, &[10, 20, 30]);

    let mut tf = TransactionFilter::default();
    tf.invoke_transaction_v0(|f| {
        f.with_contract_address(fe(1)).with_entry_point_selector(fe(2)).with_calldata(vec![
            fe(10),
            fe(20),
        ])
    });
    assert!(tf.matches(&tx));

    // The calldata filter is a prefix check: a longer filter fails.
    let mut tf = TransactionFilter::default();
    tf.invoke_transaction_v0(|f| {
        f.with_calldata(vec![fe(10), fe(20), fe(30), fe(40)])
    });
    assert!(!tf.matches(&tx));

    // A different address fails.
    let mut tf = TransactionFilter::default();
    tf.invoke_transaction_v0(|f| f.with_contract_address(fe(5)));
    assert!(!tf.matches(&tx));

    // An empty kind filter matches any transaction kind.
    let tf = TransactionFilter::default();
    assert!(tf.matches(&tx));
}

#[test]
fn filter_transaction_kind_must_agree() {
    // An invoke-v1 filter does not match an invoke-v0 transaction.
    let tx = invoke_v0(1, 2, &[]);
    let mut tf = TransactionFilter::default();
    tf.invoke_transaction_v1(|f| f.with_sender_address(fe(1)));
    assert!(!tf.matches(&tx));

    let v1 = Transaction {
        transaction: Some(TransactionVariant::InvokeV1(InvokeTransactionV1 {
            sender_address: Some(fe(1)),
            calldata: vec![],
        })),
    };
    assert!(tf.matches(&v1));

    // A transaction of unknown kind matches only the unset filter.
    let unknown = Transaction { transaction: None };
    assert!(!tf.matches(&unknown));
    assert!(TransactionFilter::default().matches(&unknown));
}

#[test]
fn filter_event_matches() {
    let event = Event {
        from_address: Some(fe(5)),
        keys: vec![fe(1), fe(2)],
        data: vec![fe(7)],
    };
    let matching = EventFilter::default().with_from_address(fe(5)).with_keys(vec![fe(1)]);
    assert!(matching.matches(&event));
    // An unset filter matches everything.
    assert!(EventFilter::default().matches(&event));
    // A key that is not a prefix fails.
    let wrong_keys = EventFilter::default().with_keys(vec![fe(2)]);
    assert!(!wrong_keys.matches(&event));
    // Data longer than the event's data fails.
    let long_data = EventFilter::default().with_data(vec![fe(7), fe(8)]);
    assert!(!long_data.matches(&event));
}

#[test]
fn filter_message_matches() {
    let message = L2ToL1Message { to_address: Some(fe(3)), payload: vec![fe(4), fe(5)] };
    assert!(L2ToL1MessageFilter::default().with_to_address(fe(3)).matches(&message));
    assert!(L2ToL1MessageFilter::default().with_payload(vec![fe(4)]).matches(&message));
    assert!(!L2ToL1MessageFilter::default().with_to_address(fe(9)).matches(&message));
}

#[test]
fn filter_state_update_entries_match() {
    let diff = StorageDiff { contract_address: Some(fe(1)) };
    assert!(StorageDiffFilter::default().with_contract_address(fe(1)).matches(&diff));
    assert!(!StorageDiffFilter::default().with_contract_address(fe(2)).matches(&diff));

    let declared = DeclaredContract { class_hash: Some(fe(8)) };
    assert!(DeclaredContractFilter::default().with_class_hash(fe(8)).matches(&declared));
    assert!(!DeclaredContractFilter::default().with_class_hash(fe(9)).matches(&declared));

    let deployed = DeployedContract { contract_address: Some(fe(1)), class_hash: Some(fe(2)) };
    assert!(
        DeployedContractFilter::default()
            .with_contract_address(fe(1))
            .with_class_hash(fe(2))
            .matches(&deployed)
    );
    assert!(!DeployedContractFilter::default().with_class_hash(fe(3)).matches(&deployed));

    let nonce = NonceUpdate { contract_address: Some(fe(1)), nonce: Some(fe(4)) };
    assert!(NonceUpdateFilter::default().with_nonce(fe(4)).matches(&nonce));
    assert!(!NonceUpdateFilter::default().with_nonce(fe(5)).matches(&nonce));
}

#[test]
fn filter_state_update_builder_collects_entries() {
    let filter = StateUpdateFilter::default()
        .add_storage_diff(|f| f.with_contract_address(fe(1)))
        .add_declared_contract(|f| f.with_class_hash(fe(2)))
        .add_deployed_contract(|f| f.with_contract_address(fe(3)))
        .add_nonce_update(|f| f.with_nonce(fe(4)));
    assert_eq!(filter.storage_diffs.len(), 1);
    assert_eq!(filter.declared_contracts.len(), 1);
    assert_eq!(filter.deployed_contracts.len(), 1);
    assert_eq!(filter.nonces.len(), 1);
    assert_eq!(filter.nonces[0].nonce, Some(fe(4)));
}
