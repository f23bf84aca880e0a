//! Compiled block filters, as the stream server consumes them.
//!
//! A client's filter message compiles to a [`BlockFilter`]: a header
//! emission policy plus a list of fragment filters, each a set of index
//! conditions that drive segment index scans. A stream request carries
//! between one and five such filters, and at least one of them must be able
//! to produce data.

use vstd::prelude::*;

use crate::filter::FieldElement;

verus! {

/// The most filters a single stream request may carry.
pub const MAX_FILTERS_PER_STREAM: usize = 5;

/// Fragment holding messages from layer two to layer one.
pub const MESSAGE_FRAGMENT_ID: u8 = 4;

/// Index over messages, keyed by sender address.
pub const INDEX_MESSAGE_BY_FROM_ADDRESS: u8 = 0;

/// Index over messages, keyed by recipient address.
pub const INDEX_MESSAGE_BY_TO_ADDRESS: u8 = 1;

/// Index over messages, keyed by transaction status.
pub const INDEX_MESSAGE_BY_TRANSACTION_STATUS: u8 = 2;

/// Wire code for a transaction-status filter that selects nothing special.
pub const TRANSACTION_STATUS_FILTER_UNSPECIFIED: i32 = 0;

/// Wire code for a transaction-status filter that selects all statuses.
pub const TRANSACTION_STATUS_FILTER_ALL: i32 = 1;

/// Wire code for a transaction-status filter selecting succeeded
/// transactions.
pub const TRANSACTION_STATUS_FILTER_SUCCEEDED: i32 = 2;

/// Wire code for a transaction-status filter selecting reverted
/// transactions.
pub const TRANSACTION_STATUS_FILTER_REVERTED: i32 = 3;

/// Index key code for a succeeded transaction.
pub const TRANSACTION_STATUS_SUCCEEDED: i32 = 1;

/// Index key code for a reverted transaction.
pub const TRANSACTION_STATUS_REVERTED: i32 = 2;

/// Filter on messages from layer two to layer one, as decoded from the
/// wire: addresses plus an optional transaction status code.
#[derive(Debug, Copy, Clone, PartialEq, Eq, Structural)]
pub struct MessageToL1Filter {
    pub id: u32,
    pub from_address: Option<FieldElement>,
    pub to_address: Option<FieldElement>,
    pub transaction_status: Option<i32>,
}

/// A value an index condition compares against.
#[derive(Debug, Copy, Clone, PartialEq, Eq, Structural)]
pub enum ScalarValue {
    /// A 32-bit signed integer key.
    Int32(i32),
    /// A 256-bit key.
    B256(FieldElement),
}

/// One index condition of a compiled fragment filter.
#[derive(Debug, Copy, Clone, PartialEq, Eq, Structural)]
pub struct Condition {
    /// Which index of the fragment to scan.
    pub index_id: u8,
    /// The key the index entry must equal.
    pub key: ScalarValue,
}

/// A compiled fragment filter: which fragment to scan, under which filter
/// id results are reported, and the conditions entries must meet.
#[derive(Debug)]
pub struct Filter {
    pub filter_id: u32,
    pub fragment_id: u8,
    pub conditions: Vec<Condition>,
}

/// Whether a block header is emitted for a block with no matching data.
#[derive(Debug, Copy, Clone, PartialEq, Eq, Structural)]
pub enum HeaderFilter {
    /// Emit the header for every block.
    Always,
    /// Emit the header only when some filter matched data in the block.
    OnData,
    /// Emit the header on matching data and on every new head.
    OnDataOrOnNewBlock,
}

/// A compiled block filter: the header policy and the fragment filters.
#[derive(Debug)]
pub struct BlockFilter {
    header_filter: HeaderFilter,
    filters: Vec<Filter>,
}

/// Rejections of a stream request's filters.
#[derive(Debug, Copy, Clone, PartialEq, Eq, Structural)]
pub enum FilterError {
    /// The request carried no filters.
    NoFilters,
    /// The request carried more filters than the server accepts.
    TooManyFilters,
    /// No filter in the request can produce data.
    NoDataProduced,
    /// A transaction status code in a filter is not recognized.
    InvalidTransactionStatus,
    /// The requested starting cursor is outside the served range.
    InvalidStartingCursor,
}

impl Default for BlockFilter {
    /// An empty block filter: a header on data only, and no fragment
    /// filters.
    fn default() -> (r: Self)
        ensures
            r.spec_header_filter() == HeaderFilter::OnData,
            r.spec_filters()@.len() == 0,
    {
        BlockFilter { header_filter: HeaderFilter::OnData, filters: Vec::new() }
    }
}

impl BlockFilter {
    /// The header policy, for specifications.
    pub closed spec fn spec_header_filter(self) -> HeaderFilter {
        self.header_filter
    }

    /// The fragment filters, for specifications.
    pub closed spec fn spec_filters(self) -> Vec<Filter> {
        self.filters
    }

    /// Set the header emission policy.
    pub fn set_header_filter(&mut self, header_filter: HeaderFilter)
        ensures
            final(self).spec_header_filter() == header_filter,
            final(self).spec_filters() == old(self).spec_filters(),
    {
        self.header_filter = header_filter;
    }

    /// The header emission policy.
    pub fn header_filter(&self) -> (r: HeaderFilter)
        ensures
            r == self.spec_header_filter(),
    {
        self.header_filter
    }

    /// Append one compiled fragment filter.
    pub fn add_filter(&mut self, filter: Filter)
        ensures
            final(self).spec_header_filter() == old(self).spec_header_filter(),
            final(self).spec_filters()@ == old(self).spec_filters()@.push(filter),
    {
        self.filters.push(filter);
    }

    /// How many fragment filters the block filter holds.
    pub fn filter_count(&self) -> (r: usize)
        ensures
            r == self.spec_filters()@.len(),
    {
        self.filters.len()
    }

    /// Whether this filter can ever produce data: it holds at least one
    /// fragment filter.
    pub fn can_produce_data(&self) -> (r: bool)
        ensures
            r == (self.spec_filters()@.len() > 0),
    {
        self.filters.len() > 0
    }
}

/// Some filter in the list can produce data.
pub open spec fn some_filter_produces_data(filters: Seq<BlockFilter>) -> bool {
    exists|i: int| 0 <= i < filters.len() && (#[trigger] filters[i]).spec_filters()@.len() > 0
}

/// Validate a stream request's compiled filters: at least one, at most
/// five, and at least one able to produce data. Returns the filters
/// unchanged.
pub fn validate_block_filters(filters: Vec<BlockFilter>) -> (r: Result<
    Vec<BlockFilter>,
    FilterError,
>)
    ensures
        match r {
            Ok(v) => {
                &&& v == filters
                &&& 1 <= filters@.len() <= MAX_FILTERS_PER_STREAM
                &&& some_filter_produces_data(filters@)
            },
            Err(FilterError::NoFilters) => filters@.len() == 0,
            Err(FilterError::TooManyFilters) => filters@.len() > MAX_FILTERS_PER_STREAM,
            Err(FilterError::NoDataProduced) => {
                &&& 1 <= filters@.len() <= MAX_FILTERS_PER_STREAM
                &&& !some_filter_produces_data(filters@)
            },
            Err(_) => false,
        },
{
    if filters.len() == 0 {
        return Err(FilterError::NoFilters);
    }
    if filters.len() > MAX_FILTERS_PER_STREAM {
        return Err(FilterError::TooManyFilters);
    }
    let mut i: usize = 0;
    let mut produces: bool = false;
    while i < filters.len()
        invariant
            0 <= i <= filters@.len(),
            produces == exists|j: int|
                0 <= j < i && (#[trigger] filters@[j]).spec_filters()@.len() > 0,
        decreases filters@.len() - i,
    {
        if filters[i].can_produce_data() {
            proof {
                assert((filters@[i as int]).spec_filters()@.len() > 0);
            }
            produces = true;
        }
        i = i + 1;
    }
    if produces {
        Ok(filters)
    } else {
        Err(FilterError::NoDataProduced)
    }
}

/// Validate a stream's starting position: it must be at or after the first
/// served block and at or before the current tip.
pub fn validate_stream_start(requested: u64, starting_block: u64, tip: u64) -> (r: Result<
    (),
    FilterError,
>)
    ensures
        match r {
            Ok(_) => starting_block <= requested <= tip,
            Err(FilterError::InvalidStartingCursor) => !(starting_block <= requested <= tip),
            Err(_) => false,
        },
{
    if starting_block <= requested && requested <= tip {
        Ok(())
    } else {
        Err(FilterError::InvalidStartingCursor)
    }
}

/// Creates compiled block filters for beacon-chain streams.
#[derive(Debug)]
pub struct BeaconChainFilterFactory;

/// Creates compiled block filters for EVM streams.
#[derive(Debug)]
pub struct EvmFilterFactory;

/// Creates compiled block filters for Starknet streams.
#[derive(Debug, Clone)]
pub struct StarknetFilterFactory;

impl BeaconChainFilterFactory {
    /// Accept a stream request's compiled filters, rejecting an empty
    /// list, more than five filters, and a request no filter of which can
    /// produce data.
    pub fn create_block_filter(&self, filters: Vec<BlockFilter>) -> (r: Result<
        Vec<BlockFilter>,
        FilterError,
    >)
        ensures
            match r {
                Ok(v) => {
                    &&& v == filters
                    &&& 1 <= filters@.len() <= MAX_FILTERS_PER_STREAM
                    &&& some_filter_produces_data(filters@)
                },
                Err(FilterError::NoFilters) => filters@.len() == 0,
                Err(FilterError::TooManyFilters) => filters@.len() > MAX_FILTERS_PER_STREAM,
                Err(FilterError::NoDataProduced) => {
                    &&& 1 <= filters@.len() <= MAX_FILTERS_PER_STREAM
                    &&& !some_filter_produces_data(filters@)
                },
                Err(_) => false,
            },
    {
        validate_block_filters(filters)
    }
}

impl EvmFilterFactory {
    /// Accept a stream request's compiled filters, rejecting an empty
    /// list, more than five filters, and a request no filter of which can
    /// produce data.
    pub fn create_block_filter(&self, filters: Vec<BlockFilter>) -> (r: Result<
        Vec<BlockFilter>,
        FilterError,
    >)
        ensures
            match r {
                Ok(v) => {
                    &&& v == filters
                    &&& 1 <= filters@.len() <= MAX_FILTERS_PER_STREAM
                    &&& some_filter_produces_data(filters@)
                },
                Err(FilterError::NoFilters) => filters@.len() == 0,
                Err(FilterError::TooManyFilters) => filters@.len() > MAX_FILTERS_PER_STREAM,
                Err(FilterError::NoDataProduced) => {
                    &&& 1 <= filters@.len() <= MAX_FILTERS_PER_STREAM
                    &&& !some_filter_produces_data(filters@)
                },
                Err(_) => false,
            },
    {
        validate_block_filters(filters)
    }
}

impl StarknetFilterFactory {
    /// Accept a stream request's compiled filters, rejecting an empty
    /// list, more than five filters, and a request no filter of which can
    /// produce data.
    pub fn create_block_filter(&self, filters: Vec<BlockFilter>) -> (r: Result<
        Vec<BlockFilter>,
        FilterError,
    >)
        ensures
            match r {
                Ok(v) => {
                    &&& v == filters
                    &&& 1 <= filters@.len() <= MAX_FILTERS_PER_STREAM
                    &&& some_filter_produces_data(filters@)
                },
                Err(FilterError::NoFilters) => filters@.len() == 0,
                Err(FilterError::TooManyFilters) => filters@.len() > MAX_FILTERS_PER_STREAM,
                Err(FilterError::NoDataProduced) => {
                    &&& 1 <= filters@.len() <= MAX_FILTERS_PER_STREAM
                    &&& !some_filter_produces_data(filters@)
                },
                Err(_) => false,
            },
    {
        validate_block_filters(filters)
    }
}

/// The conditions a message filter compiles to, when its status code is
/// recognized: a sender condition if a sender is set, then a recipient
/// condition if a recipient is set, then a status condition for the
/// succeeded or reverted selections.
pub open spec fn message_filter_conditions(f: MessageToL1Filter) -> Seq<Condition> {
    (match f.from_address {
        Some(address) => seq![
            Condition { index_id: INDEX_MESSAGE_BY_FROM_ADDRESS, key: ScalarValue::B256(address) },
        ],
        None => Seq::empty(),
    }) + (match f.to_address {
        Some(address) => seq![
            Condition { index_id: INDEX_MESSAGE_BY_TO_ADDRESS, key: ScalarValue::B256(address) },
        ],
        None => Seq::empty(),
    }) + (match f.transaction_status {
        Some(TRANSACTION_STATUS_FILTER_SUCCEEDED) => seq![
            Condition {
                index_id: INDEX_MESSAGE_BY_TRANSACTION_STATUS,
                key: ScalarValue::Int32(TRANSACTION_STATUS_SUCCEEDED),
            },
        ],
        Some(TRANSACTION_STATUS_FILTER_REVERTED) => seq![
            Condition {
                index_id: INDEX_MESSAGE_BY_TRANSACTION_STATUS,
                key: ScalarValue::Int32(TRANSACTION_STATUS_REVERTED),
            },
        ],
        _ => Seq::empty(),
    })
}

/// A status code a message filter may carry.
pub open spec fn valid_status_filter(code: i32) -> bool {
    code == TRANSACTION_STATUS_FILTER_UNSPECIFIED || code == TRANSACTION_STATUS_FILTER_ALL || code
        == TRANSACTION_STATUS_FILTER_SUCCEEDED || code == TRANSACTION_STATUS_FILTER_REVERTED
}

impl MessageToL1Filter {
    /// Compile the message filter into a fragment filter over the message
    /// fragment's indexes. Fails exactly when the filter carries an
    /// unrecognized transaction status code.
    pub fn compile_to_filter(&self) -> (r: Result<Filter, FilterError>)
        ensures
            match r {
                Ok(f) => {
                    &&& (match self.transaction_status {
                        Some(code) => valid_status_filter(code),
                        None => true,
                    })
                    &&& f.filter_id == self.id
                    &&& f.fragment_id == MESSAGE_FRAGMENT_ID
                    &&& f.conditions@ == message_filter_conditions(*self)
                },
                Err(FilterError::InvalidTransactionStatus) => match self.transaction_status {
                    Some(code) => !valid_status_filter(code),
                    None => false,
                },
                Err(_) => false,
            },
    {
        let mut conditions: Vec<Condition> = Vec::new();

        if let Some(address) = &self.from_address {
            conditions.push(
                Condition {
                    index_id: INDEX_MESSAGE_BY_FROM_ADDRESS,
                    key: ScalarValue::B256(*address),
                },
            );
        }

        if let Some(address) = &self.to_address {
            conditions.push(
                Condition { index_id: INDEX_MESSAGE_BY_TO_ADDRESS, key: ScalarValue::B256(*address) },
            );
        }

        if let Some(code) = self.transaction_status {
            if !(code == TRANSACTION_STATUS_FILTER_UNSPECIFIED || code
                == TRANSACTION_STATUS_FILTER_ALL || code == TRANSACTION_STATUS_FILTER_SUCCEEDED
                || code == TRANSACTION_STATUS_FILTER_REVERTED) {
                return Err(FilterError::InvalidTransactionStatus);
            }
            if code == TRANSACTION_STATUS_FILTER_SUCCEEDED {
                conditions.push(
                    Condition {
                        index_id: INDEX_MESSAGE_BY_TRANSACTION_STATUS,
                        key: ScalarValue::Int32(TRANSACTION_STATUS_SUCCEEDED),
                    },
                );
            }
            if code == TRANSACTION_STATUS_FILTER_REVERTED {
                conditions.push(
                    Condition {
                        index_id: INDEX_MESSAGE_BY_TRANSACTION_STATUS,
                        key: ScalarValue::Int32(TRANSACTION_STATUS_REVERTED),
                    },
                );
            }
        }

        proof {
            assert(conditions@ =~= message_filter_conditions(*self));
        }
        Ok(Filter { filter_id: self.id, fragment_id: MESSAGE_FRAGMENT_ID, conditions })
    }
}

/// Compile a request's header choice and message filters into one block
/// filter. Fails exactly when some message filter carries an unrecognized
/// transaction status code; the compiled fragment filters keep the order
/// of the message filters.
pub fn compile_message_filters(header: HeaderFilter, messages: &Vec<MessageToL1Filter>) -> (r:
    Result<BlockFilter, FilterError>)
    ensures
        match r {
            Ok(bf) => {
                &&& bf.spec_header_filter() == header
                &&& bf.spec_filters()@.len() == messages@.len()
                &&& forall|i: int|
                    0 <= i < messages@.len() ==> {
                        &&& (#[trigger] bf.spec_filters()@[i]).filter_id == messages@[i].id
                        &&& bf.spec_filters()@[i].fragment_id == MESSAGE_FRAGMENT_ID
                        &&& bf.spec_filters()@[i].conditions@ == message_filter_conditions(
                            messages@[i],
                        )
                    }
            },
            Err(FilterError::InvalidTransactionStatus) => exists|i: int|
                0 <= i < messages@.len() && match (#[trigger] messages@[i]).transaction_status {
                    Some(code) => !valid_status_filter(code),
                    None => false,
                },
            Err(_) => false,
        },
{
    let mut block_filter = BlockFilter::default();
    block_filter.set_header_filter(header);
    let mut i: usize = 0;
    while i < messages.len()
        invariant
            0 <= i <= messages@.len(),
            block_filter.spec_header_filter() == header,
            block_filter.spec_filters()@.len() == i,
            forall|j: int|
                0 <= j < i ==> {
                    &&& (#[trigger] block_filter.spec_filters()@[j]).filter_id == messages@[j].id
                    &&& block_filter.spec_filters()@[j].fragment_id == MESSAGE_FRAGMENT_ID
                    &&& block_filter.spec_filters()@[j].conditions@ == message_filter_conditions(
                        messages@[j],
                    )
                },
        decreases messages@.len() - i,
    {
        let compiled = match messages[i].compile_to_filter() {
            Ok(f) => f,
            Err(e) => {
                proof {
                    assert(0 <= i < messages@.len() && match messages@[i as int].transaction_status {
                        Some(code) => !valid_status_filter(code),
                        None => false,
                    });
                }
                return Err(e);
            },
        };
        block_filter.add_filter(compiled);
        i = i + 1;
    }
    Ok(block_filter)
}

} // verus!
