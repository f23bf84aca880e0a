use dna_core::filter::FieldElement;
use dna_core::query::{
    BlockFilter, Condition, EvmFilterFactory, Filter, FilterError, HeaderFilter,
    MessageToL1Filter, ScalarValue, StarknetFilterFactory, BeaconChainFilterFactory,
    validate_block_filters, validate_stream_start, INDEX_MESSAGE_BY_FROM_ADDRESS,
    INDEX_MESSAGE_BY_TO_ADDRESS, INDEX_MESSAGE_BY_TRANSACTION_STATUS, MESSAGE_FRAGMENT_ID,
    TRANSACTION_STATUS_FILTER_ALL, TRANSACTION_STATUS_FILTER_REVERTED,
    TRANSACTION_STATUS_FILTER_SUCCEEDED, TRANSACTION_STATUS_REVERTED,
    TRANSACTION_STATUS_SUCCEEDED,
};

fn fe(value: u64) -> FieldElement {
    FieldElement::from_u64(value)
}

fn filter_with_data() -> BlockFilter {
    let mut f = BlockFilter::default();
    f.add_filter(Filter { filter_id: 1, fragment_id: 2, conditions: vec![] });
    f
}

#[test]
fn query_rejects_empty_filter_list() {
    assert_eq!(validate_block_filters(vec![]).unwrap_err(), FilterError::NoFilters);
}

#[test]
fn query_rejects_more_than_five_filters() {
    let filters: Vec<BlockFilter> = (0..6).map(|_| filter_with_data()).collect();
    assert_eq!(
        validate_block_filters(filters).unwrap_err(),
        FilterError::TooManyFilters
    );
}

#[test]
fn query_rejects_filters_without_data() {
    let filters = vec![BlockFilter::default(), BlockFilter::default()];
    assert_eq!(
        validate_block_filters(filters).unwrap_err(),
        FilterError::NoDataProduced
    );
}

#[test]
fn query_accepts_valid_filters() {
    let filters = vec![BlockFilter::default(), filter_with_data()];
    let accepted = validate_block_filters(filters).unwrap();
    assert_eq!(accepted.len(), 2);
    assert!(accepted[1].can_produce_data());
    assert!(!accepted[0].can_produce_data());
}

#[test]
fn query_factories_validate_alike() {
    assert!(StarknetFilterFactory.create_block_filter(vec![filter_with_data()]).is_ok());
    assert!(EvmFilterFactory.create_block_filter(vec![]).is_err());
    assert_eq!(
        BeaconChainFilterFactory
            .create_block_filter(vec![BlockFilter::default()])
            .unwrap_err(),
        FilterError::NoDataProduced
    );
}

#[test]
fn query_block_filter_header_policy() {
    let mut f = BlockFilter::default();
    assert_eq!(f.header_filter(), HeaderFilter::OnData);
    f.set_header_filter(HeaderFilter::Always);
    assert_eq!(f.header_filter(), HeaderFilter::Always);
    assert_eq!(f.filter_count(), 0);
}

#[test]
fn query_message_filter_compiles_all_conditions() {
    let filter = MessageToL1Filter {
        id: 42,
        from_address: Some(fe(7)),
        to_address: Some(fe(8)),
        transaction_status: Some(TRANSACTION_STATUS_FILTER_SUCCEEDED),
    };
    let compiled = filter.compile_to_filter().unwrap();
    assert_eq!(compiled.filter_id, 42);
    assert_eq!(compiled.fragment_id, MESSAGE_FRAGMENT_ID);
    assert_eq!(
        compiled.conditions,
        vec![
            Condition { index_id: INDEX_MESSAGE_BY_FROM_ADDRESS, key: ScalarValue::B256(fe(7)) },
            Condition { index_id: INDEX_MESSAGE_BY_TO_ADDRESS, key: ScalarValue::B256(fe(8)) },
            Condition {
                index_id: INDEX_MESSAGE_BY_TRANSACTION_STATUS,
                key: ScalarValue::Int32(TRANSACTION_STATUS_SUCCEEDED),
            },
        ]
    );
}

#[test]
fn query_message_filter_status_variants() {
    // Selecting all statuses adds no condition.
    let all = MessageToL1Filter {
        id: 1,
        from_address: None,
        to_address: None,
        transaction_status: Some(TRANSACTION_STATUS_FILTER_ALL),
    };
    assert!(all.compile_to_filter().unwrap().conditions.is_empty());

    let reverted = MessageToL1Filter {
        id: 1,
        from_address: None,
        to_address: None,
        transaction_status: Some(TRANSACTION_STATUS_FILTER_REVERTED),
    };
    assert_eq!(
        reverted.compile_to_filter().unwrap().conditions,
        vec![Condition {
            index_id: INDEX_MESSAGE_BY_TRANSACTION_STATUS,
            key: ScalarValue::Int32(TRANSACTION_STATUS_REVERTED),
        }]
    );
}

#[test]
fn query_message_filter_rejects_unknown_status() {
    let filter = MessageToL1Filter {
        id: 1,
        from_address: None,
        to_address: None,
        transaction_status: Some(99),
    };
    assert_eq!(
        filter.compile_to_filter().unwrap_err(),
        FilterError::InvalidTransactionStatus
    );
}

#[test]
fn query_stream_start_must_be_in_range() {
    assert!(validate_stream_start(5, 3, 9).is_ok());
    assert!(validate_stream_start(3, 3, 9).is_ok());
    assert!(validate_stream_start(9, 3, 9).is_ok());
    assert_eq!(
        validate_stream_start(2, 3, 9).unwrap_err(),
        FilterError::InvalidStartingCursor
    );
    assert_eq!(
        validate_stream_start(10, 3, 9).unwrap_err(),
        FilterError::InvalidStartingCursor
    );
}

#[test]
fn query_compile_message_filters_in_order() {
    let first = MessageToL1Filter {
        id: 1,
        from_address: Some(fe(7)),
        to_address: None,
        transaction_status: None,
    };
    let second = MessageToL1Filter {
        id: 2,
        from_address: None,
        to_address: Some(fe(8)),
        transaction_status: None,
    };
    let compiled =
        dna_core::query::compile_message_filters(HeaderFilter::Always, &vec![first, second])
            .unwrap();
    assert_eq!(compiled.header_filter(), HeaderFilter::Always);
    assert_eq!(compiled.filter_count(), 2);
    assert!(compiled.can_produce_data());
}

#[test]
fn query_compile_message_filters_rejects_bad_status() {
    let bad = MessageToL1Filter {
        id: 1,
        from_address: None,
        to_address: None,
        transaction_status: Some(42),
    };
    assert_eq!(
        dna_core::query::compile_message_filters(HeaderFilter::OnData, &vec![bad]).unwrap_err(),
        FilterError::InvalidTransactionStatus
    );
}
