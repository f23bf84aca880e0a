//! Block data filters: builders and matching predicates.
//!
//! A filter selects events, transactions, messages and state-update entries
//! out of a block. A field left unset matches anything; a list field
//! matches when it is a prefix of the candidate's list.

use vstd::prelude::*;

verus! {

/// A field element: a 256-bit value split into four 64-bit limbs, most
/// significant first.
#[derive(Debug, Copy, Clone, PartialEq, Eq, Structural, Hash)]
pub struct FieldElement {
    pub hi_hi: u64,
    pub hi_lo: u64,
    pub lo_hi: u64,
    pub lo_lo: u64,
}

impl FieldElement {
    /// The field element with the given low limb and zero elsewhere.
    pub fn from_u64(value: u64) -> (r: FieldElement)
        ensures
            r == (FieldElement { hi_hi: 0u64, hi_lo: 0u64, lo_hi: 0u64, lo_lo: value }),
    {
        FieldElement { hi_hi: 0, hi_lo: 0, lo_hi: 0, lo_lo: value }
    }
}

/// An optional filter field matches a candidate when it is unset or equal.
pub open spec fn opt_matches(f: Option<FieldElement>, v: Option<FieldElement>) -> bool {
    f is None || f == v
}

/// A filter list matches a candidate list that it is a prefix of; an empty
/// filter list matches anything.
pub open spec fn is_prefix_match(f: Seq<FieldElement>, v: Seq<FieldElement>) -> bool {
    f.len() <= v.len() && forall|i: int| 0 <= i < f.len() ==> f[i] == v[i]
}

fn opt_fe_matches(f: &Option<FieldElement>, v: &Option<FieldElement>) -> (r: bool)
    ensures
        r == opt_matches(*f, *v),
{
    match f {
        None => true,
        Some(a) => match v {
            Some(b) => *a == *b,
            None => false,
        },
    }
}

fn prefix_matches(f: &Vec<FieldElement>, v: &Vec<FieldElement>) -> (r: bool)
    ensures
        r == is_prefix_match(f@, v@),
{
    if f.len() > v.len() {
        return false;
    }
    let mut i: usize = 0;
    while i < f.len()
        invariant
            0 <= i <= f@.len() <= v@.len(),
            forall|j: int| 0 <= j < i ==> f@[j] == v@[j],
        decreases f@.len() - i,
    {
        if f[i] != v[i] {
            return false;
        }
        i = i + 1;
    }
    true
}

/// Copy a list of plain values.
fn clone_copy_vec<T: Copy>(v: &Vec<T>) -> (r: Vec<T>)
    ensures
        r@ == v@,
{
    let mut r: Vec<T> = Vec::new();
    let mut i: usize = 0;
    while i < v.len()
        invariant
            0 <= i <= v@.len(),
            r@ =~= v@.take(i as int),
        decreases v@.len() - i,
    {
        r.push(v[i]);
        proof {
            assert(r@ =~= v@.take(i + 1));
        }
        i = i + 1;
    }
    proof {
        assert(r@ =~= v@);
    }
    r
}

// ---------------------------------------------------------------------------
// Block data read by the filters.
// ---------------------------------------------------------------------------
/// An invoke transaction, version zero.
#[derive(Debug)]
pub struct InvokeTransactionV0 {
    pub contract_address: Option<FieldElement>,
    pub entry_point_selector: Option<FieldElement>,
    pub calldata: Vec<FieldElement>,
}

/// An invoke transaction, version one.
#[derive(Debug)]
pub struct InvokeTransactionV1 {
    pub sender_address: Option<FieldElement>,
    pub calldata: Vec<FieldElement>,
}

/// A deploy transaction.
#[derive(Debug)]
pub struct DeployTransaction {
    pub contract_address_salt: Option<FieldElement>,
    pub class_hash: Option<FieldElement>,
    pub constructor_calldata: Vec<FieldElement>,
}

/// A declare transaction.
#[derive(Debug)]
pub struct DeclareTransaction {
    pub sender_address: Option<FieldElement>,
    pub class_hash: Option<FieldElement>,
}

/// A transaction handling a message from layer one.
#[derive(Debug)]
pub struct L1HandlerTransaction {
    pub contract_address: Option<FieldElement>,
    pub entry_point_selector: Option<FieldElement>,
    pub calldata: Vec<FieldElement>,
}

/// A deploy-account transaction.
#[derive(Debug)]
pub struct DeployAccountTransaction {
    pub contract_address_salt: Option<FieldElement>,
    pub class_hash: Option<FieldElement>,
    pub constructor_calldata: Vec<FieldElement>,
}

/// The possible kinds of a transaction.
#[derive(Debug)]
pub enum TransactionVariant {
    InvokeV0(InvokeTransactionV0),
    InvokeV1(InvokeTransactionV1),
    Deploy(DeployTransaction),
    Declare(DeclareTransaction),
    L1Handler(L1HandlerTransaction),
    DeployAccount(DeployAccountTransaction),
}

/// A transaction of any kind; `None` when the kind is unknown.
#[derive(Debug)]
pub struct Transaction {
    pub transaction: Option<TransactionVariant>,
}

/// An event emitted by a contract.
#[derive(Debug)]
pub struct Event {
    pub from_address: Option<FieldElement>,
    pub keys: Vec<FieldElement>,
    pub data: Vec<FieldElement>,
}

/// A message sent from layer two to layer one.
#[derive(Debug)]
pub struct L2ToL1Message {
    pub to_address: Option<FieldElement>,
    pub payload: Vec<FieldElement>,
}

/// A change to a contract's storage.
#[derive(Debug)]
pub struct StorageDiff {
    pub contract_address: Option<FieldElement>,
}

/// A newly declared contract class.
#[derive(Debug)]
pub struct DeclaredContract {
    pub class_hash: Option<FieldElement>,
}

/// A newly deployed contract.
#[derive(Debug)]
pub struct DeployedContract {
    pub contract_address: Option<FieldElement>,
    pub class_hash: Option<FieldElement>,
}

/// A change to a contract's nonce.
#[derive(Debug)]
pub struct NonceUpdate {
    pub contract_address: Option<FieldElement>,
    pub nonce: Option<FieldElement>,
}

// ---------------------------------------------------------------------------
// The filters.
// ---------------------------------------------------------------------------
/// Whether a block header is returned even when nothing else matches.
#[derive(Debug, Copy, Clone, PartialEq, Eq, Structural)]
pub struct HeaderFilter {
    pub weak: bool,
}

impl HeaderFilter {
    /// Create an header filter that always matches an header.
    pub fn new() -> (r: HeaderFilter)
        ensures
            r.weak == false,
    {
        HeaderFilter { weak: false }
    }

    /// Create an header filter that returns an header only if other filters
    /// match.
    pub fn weak() -> (r: HeaderFilter)
        ensures
            r.weak == true,
    {
        HeaderFilter { weak: true }
    }
}

/// Filter on invoke transactions, version zero.
#[derive(Debug)]
pub struct InvokeTransactionV0Filter {
    pub contract_address: Option<FieldElement>,
    pub entry_point_selector: Option<FieldElement>,
    pub calldata: Vec<FieldElement>,
}

/// Filter on invoke transactions, version one.
#[derive(Debug)]
pub struct InvokeTransactionV1Filter {
    pub sender_address: Option<FieldElement>,
    pub calldata: Vec<FieldElement>,
}

/// Filter on deploy transactions.
#[derive(Debug)]
pub struct DeployTransactionFilter {
    pub contract_address_salt: Option<FieldElement>,
    pub class_hash: Option<FieldElement>,
    pub constructor_calldata: Vec<FieldElement>,
}

/// Filter on declare transactions.
#[derive(Debug, Copy, Clone, PartialEq, Eq, Structural)]
pub struct DeclareTransactionFilter {
    pub sender_address: Option<FieldElement>,
    pub class_hash: Option<FieldElement>,
}

/// Filter on layer-one handler transactions.
#[derive(Debug)]
pub struct L1HandlerTransactionFilter {
    pub contract_address: Option<FieldElement>,
    pub entry_point_selector: Option<FieldElement>,
    pub calldata: Vec<FieldElement>,
}

/// Filter on deploy-account transactions.
#[derive(Debug)]
pub struct DeployAccountTransactionFilter {
    pub contract_address_salt: Option<FieldElement>,
    pub class_hash: Option<FieldElement>,
    pub constructor_calldata: Vec<FieldElement>,
}

/// The kind-specific part of a transaction filter.
#[derive(Debug)]
pub enum TransactionFilterVariant {
    InvokeV0(InvokeTransactionV0Filter),
    InvokeV1(InvokeTransactionV1Filter),
    Deploy(DeployTransactionFilter),
    Declare(DeclareTransactionFilter),
    L1Handler(L1HandlerTransactionFilter),
    DeployAccount(DeployAccountTransactionFilter),
}

/// Filter on transactions; an unset kind matches every transaction.
#[derive(Debug)]
pub struct TransactionFilter {
    pub filter: Option<TransactionFilterVariant>,
}

/// Filter on events.
#[derive(Debug)]
pub struct EventFilter {
    pub from_address: Option<FieldElement>,
    pub keys: Vec<FieldElement>,
    pub data: Vec<FieldElement>,
}

/// Filter on messages from layer two to layer one.
#[derive(Debug)]
pub struct L2ToL1MessageFilter {
    pub to_address: Option<FieldElement>,
    pub payload: Vec<FieldElement>,
}

/// Filter on storage changes.
#[derive(Debug, Copy, Clone, PartialEq, Eq, Structural)]
pub struct StorageDiffFilter {
    pub contract_address: Option<FieldElement>,
}

/// Filter on declared contract classes.
#[derive(Debug, Copy, Clone, PartialEq, Eq, Structural)]
pub struct DeclaredContractFilter {
    pub class_hash: Option<FieldElement>,
}

/// Filter on deployed contracts.
#[derive(Debug, Copy, Clone, PartialEq, Eq, Structural)]
pub struct DeployedContractFilter {
    pub contract_address: Option<FieldElement>,
    pub class_hash: Option<FieldElement>,
}

/// Filter on nonce updates.
#[derive(Debug, Copy, Clone, PartialEq, Eq, Structural)]
pub struct NonceUpdateFilter {
    pub contract_address: Option<FieldElement>,
    pub nonce: Option<FieldElement>,
}

/// Filter on state updates, by entry kind.
#[derive(Debug)]
pub struct StateUpdateFilter {
    pub storage_diffs: Vec<StorageDiffFilter>,
    pub declared_contracts: Vec<DeclaredContractFilter>,
    pub deployed_contracts: Vec<DeployedContractFilter>,
    pub nonces: Vec<NonceUpdateFilter>,
}

/// A whole block filter.
#[derive(Debug)]
pub struct Filter {
    pub header: Option<HeaderFilter>,
    pub transactions: Vec<TransactionFilter>,
    pub events: Vec<EventFilter>,
    pub messages: Vec<L2ToL1MessageFilter>,
    pub state_update: Option<StateUpdateFilter>,
}

// ---------------------------------------------------------------------------
// Defaults and clones.
// ---------------------------------------------------------------------------
/// An event filter with every field unset.
pub open spec fn is_default_event_filter(f: EventFilter) -> bool {
    f.from_address is None && f.keys@.len() == 0 && f.data@.len() == 0
}

/// A message filter with every field unset.
pub open spec fn is_default_message_filter(f: L2ToL1MessageFilter) -> bool {
    f.to_address is None && f.payload@.len() == 0
}

/// A transaction filter with no kind selected.
pub open spec fn is_default_transaction_filter(f: TransactionFilter) -> bool {
    f.filter is None
}

/// An invoke-v0 filter with every field unset.
pub open spec fn is_default_invoke_v0_filter(f: InvokeTransactionV0Filter) -> bool {
    f.contract_address is None && f.entry_point_selector is None && f.calldata@.len() == 0
}

/// An invoke-v1 filter with every field unset.
pub open spec fn is_default_invoke_v1_filter(f: InvokeTransactionV1Filter) -> bool {
    f.sender_address is None && f.calldata@.len() == 0
}

/// A deploy filter with every field unset.
pub open spec fn is_default_deploy_filter(f: DeployTransactionFilter) -> bool {
    f.contract_address_salt is None && f.class_hash is None && f.constructor_calldata@.len() == 0
}

/// A layer-one handler filter with every field unset.
pub open spec fn is_default_l1_handler_filter(f: L1HandlerTransactionFilter) -> bool {
    f.contract_address is None && f.entry_point_selector is None && f.calldata@.len() == 0
}

/// A deploy-account filter with every field unset.
pub open spec fn is_default_deploy_account_filter(f: DeployAccountTransactionFilter) -> bool {
    f.contract_address_salt is None && f.class_hash is None && f.constructor_calldata@.len() == 0
}

/// A state-update filter with every list empty.
pub open spec fn is_default_state_update_filter(f: StateUpdateFilter) -> bool {
    f.storage_diffs@.len() == 0 && f.declared_contracts@.len() == 0 && f.deployed_contracts@.len()
        == 0 && f.nonces@.len() == 0
}

/// A block filter with every part unset.
pub open spec fn is_default_filter(f: Filter) -> bool {
    f.header is None && f.transactions@.len() == 0 && f.events@.len() == 0 && f.messages@.len()
        == 0 && f.state_update is None
}

impl Default for EventFilter {
    fn default() -> (r: Self)
        ensures
            is_default_event_filter(r),
    {
        EventFilter { from_address: None, keys: Vec::new(), data: Vec::new() }
    }
}

impl Default for L2ToL1MessageFilter {
    fn default() -> (r: Self)
        ensures
            is_default_message_filter(r),
    {
        L2ToL1MessageFilter { to_address: None, payload: Vec::new() }
    }
}

impl Default for TransactionFilter {
    fn default() -> (r: Self)
        ensures
            is_default_transaction_filter(r),
    {
        TransactionFilter { filter: None }
    }
}

impl Default for InvokeTransactionV0Filter {
    fn default() -> (r: Self)
        ensures
            is_default_invoke_v0_filter(r),
    {
        InvokeTransactionV0Filter {
            contract_address: None,
            entry_point_selector: None,
            calldata: Vec::new(),
        }
    }
}

impl Default for InvokeTransactionV1Filter {
    fn default() -> (r: Self)
        ensures
            is_default_invoke_v1_filter(r),
    {
        InvokeTransactionV1Filter { sender_address: None, calldata: Vec::new() }
    }
}

impl Default for DeployTransactionFilter {
    fn default() -> (r: Self)
        ensures
            is_default_deploy_filter(r),
    {
        DeployTransactionFilter {
            contract_address_salt: None,
            class_hash: None,
            constructor_calldata: Vec::new(),
        }
    }
}

impl Default for DeclareTransactionFilter {
    fn default() -> (r: Self)
        ensures
            r == (DeclareTransactionFilter { sender_address: None, class_hash: None }),
    {
        DeclareTransactionFilter { sender_address: None, class_hash: None }
    }
}

impl Default for L1HandlerTransactionFilter {
    fn default() -> (r: Self)
        ensures
            is_default_l1_handler_filter(r),
    {
        L1HandlerTransactionFilter {
            contract_address: None,
            entry_point_selector: None,
            calldata: Vec::new(),
        }
    }
}

impl Default for DeployAccountTransactionFilter {
    fn default() -> (r: Self)
        ensures
            is_default_deploy_account_filter(r),
    {
        DeployAccountTransactionFilter {
            contract_address_salt: None,
            class_hash: None,
            constructor_calldata: Vec::new(),
        }
    }
}

impl Default for StorageDiffFilter {
    fn default() -> (r: Self)
        ensures
            r == (StorageDiffFilter { contract_address: None }),
    {
        StorageDiffFilter { contract_address: None }
    }
}

impl Default for DeclaredContractFilter {
    fn default() -> (r: Self)
        ensures
            r == (DeclaredContractFilter { class_hash: None }),
    {
        DeclaredContractFilter { class_hash: None }
    }
}

impl Default for DeployedContractFilter {
    fn default() -> (r: Self)
        ensures
            r == (DeployedContractFilter { contract_address: None, class_hash: None }),
    {
        DeployedContractFilter { contract_address: None, class_hash: None }
    }
}

impl Default for NonceUpdateFilter {
    fn default() -> (r: Self)
        ensures
            r == (NonceUpdateFilter { contract_address: None, nonce: None }),
    {
        NonceUpdateFilter { contract_address: None, nonce: None }
    }
}

impl Default for StateUpdateFilter {
    fn default() -> (r: Self)
        ensures
            is_default_state_update_filter(r),
    {
        StateUpdateFilter {
            storage_diffs: Vec::new(),
            declared_contracts: Vec::new(),
            deployed_contracts: Vec::new(),
            nonces: Vec::new(),
        }
    }
}

impl Default for Filter {
    fn default() -> (r: Self)
        ensures
            is_default_filter(r),
    {
        Filter {
            header: None,
            transactions: Vec::new(),
            events: Vec::new(),
            messages: Vec::new(),
            state_update: None,
        }
    }
}

/// Two event filters that select the same events.
pub open spec fn event_filter_equiv(a: EventFilter, b: EventFilter) -> bool {
    a.from_address == b.from_address && a.keys@ == b.keys@ && a.data@ == b.data@
}

/// Two message filters that select the same messages.
pub open spec fn message_filter_equiv(a: L2ToL1MessageFilter, b: L2ToL1MessageFilter) -> bool {
    a.to_address == b.to_address && a.payload@ == b.payload@
}

/// Two invoke-v0 filters that select the same transactions.
pub open spec fn invoke_v0_filter_equiv(
    a: InvokeTransactionV0Filter,
    b: InvokeTransactionV0Filter,
) -> bool {
    a.contract_address == b.contract_address && a.entry_point_selector == b.entry_point_selector
        && a.calldata@ == b.calldata@
}

/// Two invoke-v1 filters that select the same transactions.
pub open spec fn invoke_v1_filter_equiv(
    a: InvokeTransactionV1Filter,
    b: InvokeTransactionV1Filter,
) -> bool {
    a.sender_address == b.sender_address && a.calldata@ == b.calldata@
}

/// Two deploy filters that select the same transactions.
pub open spec fn deploy_filter_equiv(
    a: DeployTransactionFilter,
    b: DeployTransactionFilter,
) -> bool {
    a.contract_address_salt == b.contract_address_salt && a.class_hash == b.class_hash
        && a.constructor_calldata@ == b.constructor_calldata@
}

/// Two layer-one handler filters that select the same transactions.
pub open spec fn l1_handler_filter_equiv(
    a: L1HandlerTransactionFilter,
    b: L1HandlerTransactionFilter,
) -> bool {
    a.contract_address == b.contract_address && a.entry_point_selector == b.entry_point_selector
        && a.calldata@ == b.calldata@
}

/// Two deploy-account filters that select the same transactions.
pub open spec fn deploy_account_filter_equiv(
    a: DeployAccountTransactionFilter,
    b: DeployAccountTransactionFilter,
) -> bool {
    a.contract_address_salt == b.contract_address_salt && a.class_hash == b.class_hash
        && a.constructor_calldata@ == b.constructor_calldata@
}

/// Two transaction filters that select the same transactions.
pub open spec fn transaction_filter_equiv(a: TransactionFilter, b: TransactionFilter) -> bool {
    match (a.filter, b.filter) {
        (None, None) => true,
        (
            Some(TransactionFilterVariant::InvokeV0(x)),
            Some(TransactionFilterVariant::InvokeV0(y)),
        ) => invoke_v0_filter_equiv(x, y),
        (
            Some(TransactionFilterVariant::InvokeV1(x)),
            Some(TransactionFilterVariant::InvokeV1(y)),
        ) => invoke_v1_filter_equiv(x, y),
        (Some(TransactionFilterVariant::Deploy(x)), Some(TransactionFilterVariant::Deploy(y))) =>
            deploy_filter_equiv(x, y),
        (Some(TransactionFilterVariant::Declare(x)), Some(TransactionFilterVariant::Declare(y))) => x
            == y,
        (
            Some(TransactionFilterVariant::L1Handler(x)),
            Some(TransactionFilterVariant::L1Handler(y)),
        ) => l1_handler_filter_equiv(x, y),
        (
            Some(TransactionFilterVariant::DeployAccount(x)),
            Some(TransactionFilterVariant::DeployAccount(y)),
        ) => deploy_account_filter_equiv(x, y),
        _ => false,
    }
}

/// Two lists of transaction filters that select alike, pointwise.
pub open spec fn transaction_filters_equiv(
    a: Seq<TransactionFilter>,
    b: Seq<TransactionFilter>,
) -> bool {
    a.len() == b.len() && forall|i: int|
        0 <= i < a.len() ==> transaction_filter_equiv(#[trigger] a[i], b[i])
}

/// Two lists of event filters that select alike, pointwise.
pub open spec fn event_filters_equiv(a: Seq<EventFilter>, b: Seq<EventFilter>) -> bool {
    a.len() == b.len() && forall|i: int|
        0 <= i < a.len() ==> event_filter_equiv(#[trigger] a[i], b[i])
}

/// Two lists of message filters that select alike, pointwise.
pub open spec fn message_filters_equiv(
    a: Seq<L2ToL1MessageFilter>,
    b: Seq<L2ToL1MessageFilter>,
) -> bool {
    a.len() == b.len() && forall|i: int|
        0 <= i < a.len() ==> message_filter_equiv(#[trigger] a[i], b[i])
}

/// Two state-update filters that select the same entries.
pub open spec fn state_update_filter_equiv(a: StateUpdateFilter, b: StateUpdateFilter) -> bool {
    a.storage_diffs@ == b.storage_diffs@ && a.declared_contracts@ == b.declared_contracts@
        && a.deployed_contracts@ == b.deployed_contracts@ && a.nonces@ == b.nonces@
}

/// Two block filters that select the same data.
pub open spec fn filter_equiv(a: Filter, b: Filter) -> bool {
    &&& a.header == b.header
    &&& transaction_filters_equiv(a.transactions@, b.transactions@)
    &&& event_filters_equiv(a.events@, b.events@)
    &&& message_filters_equiv(a.messages@, b.messages@)
    &&& match (a.state_update, b.state_update) {
        (None, None) => true,
        (Some(x), Some(y)) => state_update_filter_equiv(x, y),
        _ => false,
    }
}

impl Clone for EventFilter {
    fn clone(&self) -> (r: Self)
        ensures
            event_filter_equiv(r, *self),
    {
        EventFilter {
            from_address: self.from_address,
            keys: clone_copy_vec(&self.keys),
            data: clone_copy_vec(&self.data),
        }
    }
}

impl Clone for L2ToL1MessageFilter {
    fn clone(&self) -> (r: Self)
        ensures
            message_filter_equiv(r, *self),
    {
        L2ToL1MessageFilter {
            to_address: self.to_address,
            payload: clone_copy_vec(&self.payload),
        }
    }
}

impl Clone for InvokeTransactionV0Filter {
    fn clone(&self) -> (r: Self)
        ensures
            invoke_v0_filter_equiv(r, *self),
    {
        InvokeTransactionV0Filter {
            contract_address: self.contract_address,
            entry_point_selector: self.entry_point_selector,
            calldata: clone_copy_vec(&self.calldata),
        }
    }
}

impl Clone for InvokeTransactionV1Filter {
    fn clone(&self) -> (r: Self)
        ensures
            invoke_v1_filter_equiv(r, *self),
    {
        InvokeTransactionV1Filter {
            sender_address: self.sender_address,
            calldata: clone_copy_vec(&self.calldata),
        }
    }
}

impl Clone for DeployTransactionFilter {
    fn clone(&self) -> (r: Self)
        ensures
            deploy_filter_equiv(r, *self),
    {
        DeployTransactionFilter {
            contract_address_salt: self.contract_address_salt,
            class_hash: self.class_hash,
            constructor_calldata: clone_copy_vec(&self.constructor_calldata),
        }
    }
}

impl Clone for L1HandlerTransactionFilter {
    fn clone(&self) -> (r: Self)
        ensures
            l1_handler_filter_equiv(r, *self),
    {
        L1HandlerTransactionFilter {
            contract_address: self.contract_address,
            entry_point_selector: self.entry_point_selector,
            calldata: clone_copy_vec(&self.calldata),
        }
    }
}

impl Clone for DeployAccountTransactionFilter {
    fn clone(&self) -> (r: Self)
        ensures
            deploy_account_filter_equiv(r, *self),
    {
        DeployAccountTransactionFilter {
            contract_address_salt: self.contract_address_salt,
            class_hash: self.class_hash,
            constructor_calldata: clone_copy_vec(&self.constructor_calldata),
        }
    }
}

impl Clone for TransactionFilter {
    fn clone(&self) -> (r: Self)
        ensures
            transaction_filter_equiv(r, *self),
    {
        let filter = match &self.filter {
            None => None,
            Some(TransactionFilterVariant::InvokeV0(f)) => Some(
                TransactionFilterVariant::InvokeV0(f.clone()),
            ),
            Some(TransactionFilterVariant::InvokeV1(f)) => Some(
                TransactionFilterVariant::InvokeV1(f.clone()),
            ),
            Some(TransactionFilterVariant::Deploy(f)) => Some(
                TransactionFilterVariant::Deploy(f.clone()),
            ),
            Some(TransactionFilterVariant::Declare(f)) => Some(
                TransactionFilterVariant::Declare(*f),
            ),
            Some(TransactionFilterVariant::L1Handler(f)) => Some(
                TransactionFilterVariant::L1Handler(f.clone()),
            ),
            Some(TransactionFilterVariant::DeployAccount(f)) => Some(
                TransactionFilterVariant::DeployAccount(f.clone()),
            ),
        };
        TransactionFilter { filter }
    }
}

impl Clone for StateUpdateFilter {
    fn clone(&self) -> (r: Self)
        ensures
            state_update_filter_equiv(r, *self),
    {
        StateUpdateFilter {
            storage_diffs: clone_copy_vec(&self.storage_diffs),
            declared_contracts: clone_copy_vec(&self.declared_contracts),
            deployed_contracts: clone_copy_vec(&self.deployed_contracts),
            nonces: clone_copy_vec(&self.nonces),
        }
    }
}

// ---------------------------------------------------------------------------
// Matching.
// ---------------------------------------------------------------------------
/// What it means for an invoke-v0 filter to match a transaction.
pub open spec fn invoke_v0_matches(f: InvokeTransactionV0Filter, tx: Transaction) -> bool {
    match tx.transaction {
        Some(TransactionVariant::InvokeV0(t)) => opt_matches(f.contract_address, t.contract_address)
            && opt_matches(f.entry_point_selector, t.entry_point_selector) && is_prefix_match(
            f.calldata@,
            t.calldata@,
        ),
        _ => false,
    }
}

/// What it means for an invoke-v1 filter to match a transaction.
pub open spec fn invoke_v1_matches(f: InvokeTransactionV1Filter, tx: Transaction) -> bool {
    match tx.transaction {
        Some(TransactionVariant::InvokeV1(t)) => opt_matches(f.sender_address, t.sender_address)
            && is_prefix_match(f.calldata@, t.calldata@),
        _ => false,
    }
}

/// What it means for a deploy filter to match a transaction.
pub open spec fn deploy_matches(f: DeployTransactionFilter, tx: Transaction) -> bool {
    match tx.transaction {
        Some(TransactionVariant::Deploy(t)) => opt_matches(f.class_hash, t.class_hash)
            && opt_matches(f.contract_address_salt, t.contract_address_salt) && is_prefix_match(
            f.constructor_calldata@,
            t.constructor_calldata@,
        ),
        _ => false,
    }
}

/// What it means for a declare filter to match a transaction.
pub open spec fn declare_matches(f: DeclareTransactionFilter, tx: Transaction) -> bool {
    match tx.transaction {
        Some(TransactionVariant::Declare(t)) => opt_matches(f.class_hash, t.class_hash)
            && opt_matches(f.sender_address, t.sender_address),
        _ => false,
    }
}

/// What it means for a layer-one handler filter to match a transaction.
pub open spec fn l1_handler_matches(f: L1HandlerTransactionFilter, tx: Transaction) -> bool {
    match tx.transaction {
        Some(TransactionVariant::L1Handler(t)) => opt_matches(f.contract_address, t.contract_address)
            && opt_matches(f.entry_point_selector, t.entry_point_selector) && is_prefix_match(
            f.calldata@,
            t.calldata@,
        ),
        _ => false,
    }
}

/// What it means for a deploy-account filter to match a transaction.
pub open spec fn deploy_account_matches(f: DeployAccountTransactionFilter, tx: Transaction) -> bool {
    match tx.transaction {
        Some(TransactionVariant::DeployAccount(t)) => opt_matches(f.class_hash, t.class_hash)
            && opt_matches(f.contract_address_salt, t.contract_address_salt) && is_prefix_match(
            f.constructor_calldata@,
            t.constructor_calldata@,
        ),
        _ => false,
    }
}

/// What it means for a transaction filter to match a transaction: an unset
/// kind matches everything, a set kind delegates to its filter.
pub open spec fn transaction_matches(f: TransactionFilter, tx: Transaction) -> bool {
    match f.filter {
        None => true,
        Some(TransactionFilterVariant::InvokeV0(g)) => invoke_v0_matches(g, tx),
        Some(TransactionFilterVariant::InvokeV1(g)) => invoke_v1_matches(g, tx),
        Some(TransactionFilterVariant::Deploy(g)) => deploy_matches(g, tx),
        Some(TransactionFilterVariant::Declare(g)) => declare_matches(g, tx),
        Some(TransactionFilterVariant::L1Handler(g)) => l1_handler_matches(g, tx),
        Some(TransactionFilterVariant::DeployAccount(g)) => deploy_account_matches(g, tx),
    }
}

/// What it means for an event filter to match an event.
pub open spec fn event_matches(f: EventFilter, e: Event) -> bool {
    opt_matches(f.from_address, e.from_address) && is_prefix_match(f.keys@, e.keys@)
        && is_prefix_match(f.data@, e.data@)
}

/// What it means for a message filter to match a message.
pub open spec fn message_matches(f: L2ToL1MessageFilter, m: L2ToL1Message) -> bool {
    opt_matches(f.to_address, m.to_address) && is_prefix_match(f.payload@, m.payload@)
}

/// What it means for a storage-diff filter to match a storage diff.
pub open spec fn storage_diff_matches(f: StorageDiffFilter, d: StorageDiff) -> bool {
    opt_matches(f.contract_address, d.contract_address)
}

/// What it means for a declared-contract filter to match a declared class.
pub open spec fn declared_contract_matches(f: DeclaredContractFilter, d: DeclaredContract) -> bool {
    opt_matches(f.class_hash, d.class_hash)
}

/// What it means for a deployed-contract filter to match a deployment.
pub open spec fn deployed_contract_matches(f: DeployedContractFilter, d: DeployedContract) -> bool {
    opt_matches(f.contract_address, d.contract_address) && opt_matches(f.class_hash, d.class_hash)
}

/// What it means for a nonce-update filter to match a nonce update.
pub open spec fn nonce_update_matches(f: NonceUpdateFilter, u: NonceUpdate) -> bool {
    opt_matches(f.contract_address, u.contract_address) && opt_matches(f.nonce, u.nonce)
}

/// Copy a list of event filters.
fn clone_event_filters(v: &Vec<EventFilter>) -> (r: Vec<EventFilter>)
    ensures
        event_filters_equiv(r@, v@),
{
    let mut r: Vec<EventFilter> = Vec::new();
    let mut i: usize = 0;
    while i < v.len()
        invariant
            0 <= i <= v@.len(),
            r@.len() == i,
            forall|j: int| 0 <= j < i ==> event_filter_equiv(#[trigger] r@[j], v@[j]),
        decreases v@.len() - i,
    {
        r.push(v[i].clone());
        i = i + 1;
    }
    r
}

/// Copy a list of message filters.
fn clone_message_filters(v: &Vec<L2ToL1MessageFilter>) -> (r: Vec<L2ToL1MessageFilter>)
    ensures
        message_filters_equiv(r@, v@),
{
    let mut r: Vec<L2ToL1MessageFilter> = Vec::new();
    let mut i: usize = 0;
    while i < v.len()
        invariant
            0 <= i <= v@.len(),
            r@.len() == i,
            forall|j: int| 0 <= j < i ==> message_filter_equiv(#[trigger] r@[j], v@[j]),
        decreases v@.len() - i,
    {
        r.push(v[i].clone());
        i = i + 1;
    }
    r
}

/// Copy a list of transaction filters.
fn clone_transaction_filters(v: &Vec<TransactionFilter>) -> (r: Vec<TransactionFilter>)
    ensures
        transaction_filters_equiv(r@, v@),
{
    let mut r: Vec<TransactionFilter> = Vec::new();
    let mut i: usize = 0;
    while i < v.len()
        invariant
            0 <= i <= v@.len(),
            r@.len() == i,
            forall|j: int| 0 <= j < i ==> transaction_filter_equiv(#[trigger] r@[j], v@[j]),
        decreases v@.len() - i,
    {
        r.push(v[i].clone());
        i = i + 1;
    }
    r
}

impl Filter {
    /// Configure filter header.
    pub fn with_header(&mut self, header: HeaderFilter) -> (ret: &mut Filter)
        ensures
            ret.header == Some(header),
            ret.transactions == old(self).transactions,
            ret.events == old(self).events,
            ret.messages == old(self).messages,
            ret.state_update == old(self).state_update,
            *final(self) == *final(ret),
    {
        let mut this = self;
        this.header = Some(header);
        this
    }

    /// With specific state update.
    pub fn with_state_update(&mut self, state_update: StateUpdateFilter) -> (ret: &mut Filter)
        ensures
            ret.state_update == Some(state_update),
            ret.header == old(self).header,
            ret.transactions == old(self).transactions,
            ret.events == old(self).events,
            ret.messages == old(self).messages,
            *final(self) == *final(ret),
    {
        let mut this = self;
        this.state_update = Some(state_update);
        this
    }

    /// Add event to subscribe to.
    pub fn add_event<F: Fn(EventFilter) -> EventFilter>(&mut self, closure: F) -> (ret: &mut Filter)
        requires
            forall|f0: EventFilter| is_default_event_filter(f0) ==> closure.requires((f0,)),
        ensures
            ret.header == old(self).header,
            ret.transactions == old(self).transactions,
            ret.messages == old(self).messages,
            ret.state_update == old(self).state_update,
            exists|f0: EventFilter, ef: EventFilter|
                is_default_event_filter(f0) && #[trigger] closure.ensures((f0,), ef)
                    && ret.events@ == old(self).events@.push(ef),
            *final(self) == *final(ret),
    {
        let ef = closure(EventFilter::default());
        self.events.push(ef);
        self
    }

    /// Add transaction to filter.
    pub fn add_transaction<F: Fn(TransactionFilter) -> TransactionFilter>(
        &mut self,
        closure: F,
    ) -> (ret: &mut Filter)
        requires
            forall|f0: TransactionFilter|
                is_default_transaction_filter(f0) ==> closure.requires((f0,)),
        ensures
            ret.header == old(self).header,
            ret.events == old(self).events,
            ret.messages == old(self).messages,
            ret.state_update == old(self).state_update,
            exists|f0: TransactionFilter, tf: TransactionFilter|
                is_default_transaction_filter(f0) && #[trigger] closure.ensures((f0,), tf)
                    && ret.transactions@ == old(self).transactions@.push(tf),
            *final(self) == *final(ret),
    {
        let tf = closure(TransactionFilter::default());
        self.transactions.push(tf);
        self
    }

    /// Add message to filter.
    pub fn add_message<F: Fn(L2ToL1MessageFilter) -> L2ToL1MessageFilter>(
        &mut self,
        closure: F,
    ) -> (ret: &mut Filter)
        requires
            forall|f0: L2ToL1MessageFilter|
                is_default_message_filter(f0) ==> closure.requires((f0,)),
        ensures
            ret.header == old(self).header,
            ret.transactions == old(self).transactions,
            ret.events == old(self).events,
            ret.state_update == old(self).state_update,
            exists|f0: L2ToL1MessageFilter, mf: L2ToL1MessageFilter|
                is_default_message_filter(f0) && #[trigger] closure.ensures((f0,), mf)
                    && ret.messages@ == old(self).messages@.push(mf),
            *final(self) == *final(ret),
    {
        let mf = closure(L2ToL1MessageFilter::default());
        self.messages.push(mf);
        self
    }

    /// Build final version of the filter. A filter built without a header
    /// choice defaults to a weak header, which is returned only when other
    /// filters match.
    pub fn build(&mut self) -> (r: Filter)
        ensures
            final(self).header == (if old(self).header is None {
                Some(HeaderFilter { weak: true })
            } else {
                old(self).header
            }),
            final(self).transactions == old(self).transactions,
            final(self).events == old(self).events,
            final(self).messages == old(self).messages,
            final(self).state_update == old(self).state_update,
            filter_equiv(r, *final(self)),
    {
        if self.header.is_none() {
            self.header = Some(HeaderFilter::weak());
        }
        let transactions = clone_transaction_filters(&self.transactions);
        let events = clone_event_filters(&self.events);
        let messages = clone_message_filters(&self.messages);
        let state_update = match &self.state_update {
            None => None,
            Some(s) => Some(s.clone()),
        };
        Filter { header: self.header, transactions, events, messages, state_update }
    }
}

impl TransactionFilter {
    /// Select invoke transactions, version zero.
    pub fn invoke_transaction_v0<F: Fn(InvokeTransactionV0Filter) -> InvokeTransactionV0Filter>(
        &mut self,
        closure: F,
    ) -> (ret: &mut TransactionFilter)
        requires
            forall|f0: InvokeTransactionV0Filter|
                is_default_invoke_v0_filter(f0) ==> closure.requires((f0,)),
        ensures
            exists|f0: InvokeTransactionV0Filter, g: InvokeTransactionV0Filter|
                is_default_invoke_v0_filter(f0) && #[trigger] closure.ensures((f0,), g)
                    && ret.filter == Some(TransactionFilterVariant::InvokeV0(g)),
            *final(self) == *final(ret),
    {
        let g = closure(InvokeTransactionV0Filter::default());
        self.filter = Some(TransactionFilterVariant::InvokeV0(g));
        self
    }

    /// Select invoke transactions, version one.
    pub fn invoke_transaction_v1<F: Fn(InvokeTransactionV1Filter) -> InvokeTransactionV1Filter>(
        &mut self,
        closure: F,
    ) -> (ret: &mut TransactionFilter)
        requires
            forall|f0: InvokeTransactionV1Filter|
                is_default_invoke_v1_filter(f0) ==> closure.requires((f0,)),
        ensures
            exists|f0: InvokeTransactionV1Filter, g: InvokeTransactionV1Filter|
                is_default_invoke_v1_filter(f0) && #[trigger] closure.ensures((f0,), g)
                    && ret.filter == Some(TransactionFilterVariant::InvokeV1(g)),
            *final(self) == *final(ret),
    {
        let g = closure(InvokeTransactionV1Filter::default());
        self.filter = Some(TransactionFilterVariant::InvokeV1(g));
        self
    }

    /// Select deploy transactions.
    pub fn deploy_transaction<F: Fn(DeployTransactionFilter) -> DeployTransactionFilter>(
        &mut self,
        closure: F,
    ) -> (ret: &mut TransactionFilter)
        requires
            forall|f0: DeployTransactionFilter|
                is_default_deploy_filter(f0) ==> closure.requires((f0,)),
        ensures
            exists|f0: DeployTransactionFilter, g: DeployTransactionFilter|
                is_default_deploy_filter(f0) && #[trigger] closure.ensures((f0,), g)
                    && ret.filter == Some(TransactionFilterVariant::Deploy(g)),
            *final(self) == *final(ret),
    {
        let g = closure(DeployTransactionFilter::default());
        self.filter = Some(TransactionFilterVariant::Deploy(g));
        self
    }

    /// Select declare transactions.
    pub fn declare_transaction<F: Fn(DeclareTransactionFilter) -> DeclareTransactionFilter>(
        &mut self,
        closure: F,
    ) -> (ret: &mut TransactionFilter)
        requires
            closure.requires(
                ((DeclareTransactionFilter { sender_address: None, class_hash: None }),),
            ),
        ensures
            exists|g: DeclareTransactionFilter|
                #[trigger] closure.ensures(
                    ((DeclareTransactionFilter { sender_address: None, class_hash: None }),),
                    g,
                ) && ret.filter == Some(TransactionFilterVariant::Declare(g)),
            *final(self) == *final(ret),
    {
        let g = closure(DeclareTransactionFilter::default());
        self.filter = Some(TransactionFilterVariant::Declare(g));
        self
    }

    /// Select layer-one handler transactions.
    pub fn l1_handler_transaction<F: Fn(L1HandlerTransactionFilter) -> L1HandlerTransactionFilter>(
        &mut self,
        closure: F,
    ) -> (ret: &mut TransactionFilter)
        requires
            forall|f0: L1HandlerTransactionFilter|
                is_default_l1_handler_filter(f0) ==> closure.requires((f0,)),
        ensures
            exists|f0: L1HandlerTransactionFilter, g: L1HandlerTransactionFilter|
                is_default_l1_handler_filter(f0) && #[trigger] closure.ensures((f0,), g)
                    && ret.filter == Some(TransactionFilterVariant::L1Handler(g)),
            *final(self) == *final(ret),
    {
        let g = closure(L1HandlerTransactionFilter::default());
        self.filter = Some(TransactionFilterVariant::L1Handler(g));
        self
    }

    /// Select deploy-account transactions.
    pub fn deploy_account_transaction<
        F: Fn(DeployAccountTransactionFilter) -> DeployAccountTransactionFilter,
    >(&mut self, closure: F) -> (ret: &mut TransactionFilter)
        requires
            forall|f0: DeployAccountTransactionFilter|
                is_default_deploy_account_filter(f0) ==> closure.requires((f0,)),
        ensures
            exists|f0: DeployAccountTransactionFilter, g: DeployAccountTransactionFilter|
                is_default_deploy_account_filter(f0) && #[trigger] closure.ensures((f0,), g)
                    && ret.filter == Some(TransactionFilterVariant::DeployAccount(g)),
            *final(self) == *final(ret),
    {
        let g = closure(DeployAccountTransactionFilter::default());
        self.filter = Some(TransactionFilterVariant::DeployAccount(g));
        self
    }

    /// Builds the final transaction filter.
    pub fn build(&mut self) -> (r: TransactionFilter)
        ensures
            *final(self) == *old(self),
            transaction_filter_equiv(r, *old(self)),
    {
        self.clone()
    }
}

impl InvokeTransactionV0Filter {
    /// Filter transaction with contract address.
    pub fn with_contract_address(self, address: FieldElement) -> (r: Self)
        ensures
            r.contract_address == Some(address),
            r.entry_point_selector == self.entry_point_selector,
            r.calldata == self.calldata,
    {
        let mut this = self;
        this.contract_address = Some(address);
        this
    }

    /// Filter with transaction selector.
    pub fn with_entry_point_selector(self, selector: FieldElement) -> (r: Self)
        ensures
            r.entry_point_selector == Some(selector),
            r.contract_address == self.contract_address,
            r.calldata == self.calldata,
    {
        let mut this = self;
        this.entry_point_selector = Some(selector);
        this
    }

    /// Filter with call data.
    pub fn with_calldata(self, calldata: Vec<FieldElement>) -> (r: Self)
        ensures
            r.calldata == calldata,
            r.contract_address == self.contract_address,
            r.entry_point_selector == self.entry_point_selector,
    {
        let mut this = self;
        this.calldata = calldata;
        this
    }
}

impl InvokeTransactionV1Filter {
    /// Filter transaction with sender address.
    pub fn with_sender_address(self, address: FieldElement) -> (r: Self)
        ensures
            r.sender_address == Some(address),
            r.calldata == self.calldata,
    {
        let mut this = self;
        this.sender_address = Some(address);
        this
    }

    /// Filter with call data.
    pub fn with_calldata(self, calldata: Vec<FieldElement>) -> (r: Self)
        ensures
            r.calldata == calldata,
            r.sender_address == self.sender_address,
    {
        let mut this = self;
        this.calldata = calldata;
        this
    }
}

impl DeployTransactionFilter {
    /// Filter transaction with contract address salt.
    pub fn with_contract_address_salt(self, address: FieldElement) -> (r: Self)
        ensures
            r.contract_address_salt == Some(address),
            r.class_hash == self.class_hash,
            r.constructor_calldata == self.constructor_calldata,
    {
        let mut this = self;
        this.contract_address_salt = Some(address);
        this
    }

    /// Filter transaction with class hash.
    pub fn with_class_hash(self, class_hash: FieldElement) -> (r: Self)
        ensures
            r.class_hash == Some(class_hash),
            r.contract_address_salt == self.contract_address_salt,
            r.constructor_calldata == self.constructor_calldata,
    {
        let mut this = self;
        this.class_hash = Some(class_hash);
        this
    }

    /// Filter transaction with constructor calldata.
    pub fn with_constructor_calldata(self, constructor_calldata: Vec<FieldElement>) -> (r: Self)
        ensures
            r.constructor_calldata == constructor_calldata,
            r.contract_address_salt == self.contract_address_salt,
            r.class_hash == self.class_hash,
    {
        let mut this = self;
        this.constructor_calldata = constructor_calldata;
        this
    }
}

impl DeclareTransactionFilter {
    /// Filter transaction with sender address.
    pub fn with_sender_address(self, address: FieldElement) -> (r: Self)
        ensures
            r.sender_address == Some(address),
            r.class_hash == self.class_hash,
    {
        let mut this = self;
        this.sender_address = Some(address);
        this
    }

    /// Filter with class hash.
    pub fn with_class_hash(self, class_hash: FieldElement) -> (r: Self)
        ensures
            r.class_hash == Some(class_hash),
            r.sender_address == self.sender_address,
    {
        let mut this = self;
        this.class_hash = Some(class_hash);
        this
    }
}

impl L1HandlerTransactionFilter {
    /// Filter transaction with contract address.
    pub fn with_contract_address(self, address: FieldElement) -> (r: Self)
        ensures
            r.contract_address == Some(address),
            r.entry_point_selector == self.entry_point_selector,
            r.calldata == self.calldata,
    {
        let mut this = self;
        this.contract_address = Some(address);
        this
    }

    /// Filter transaction with entry point selector.
    pub fn with_entry_point_selector(self, selector: FieldElement) -> (r: Self)
        ensures
            r.entry_point_selector == Some(selector),
            r.contract_address == self.contract_address,
            r.calldata == self.calldata,
    {
        let mut this = self;
        this.entry_point_selector = Some(selector);
        this
    }

    /// Filter transaction with call data.
    pub fn with_calldata(self, calldata: Vec<FieldElement>) -> (r: Self)
        ensures
            r.calldata == calldata,
            r.contract_address == self.contract_address,
            r.entry_point_selector == self.entry_point_selector,
    {
        let mut this = self;
        this.calldata = calldata;
        this
    }
}

impl DeployAccountTransactionFilter {
    /// Filter transaction with contract address salt.
    pub fn with_contract_address_salt(self, address: FieldElement) -> (r: Self)
        ensures
            r.contract_address_salt == Some(address),
            r.class_hash == self.class_hash,
            r.constructor_calldata == self.constructor_calldata,
    {
        let mut this = self;
        this.contract_address_salt = Some(address);
        this
    }

    /// Filter transaction with class hash.
    pub fn with_class_hash(self, class_hash: FieldElement) -> (r: Self)
        ensures
            r.class_hash == Some(class_hash),
            r.contract_address_salt == self.contract_address_salt,
            r.constructor_calldata == self.constructor_calldata,
    {
        let mut this = self;
        this.class_hash = Some(class_hash);
        this
    }

    /// Filter transaction with calldata.
    pub fn with_constructor_calldata(self, constructor_calldata: Vec<FieldElement>) -> (r: Self)
        ensures
            r.constructor_calldata == constructor_calldata,
            r.contract_address_salt == self.contract_address_salt,
            r.class_hash == self.class_hash,
    {
        let mut this = self;
        this.constructor_calldata = constructor_calldata;
        this
    }
}

impl EventFilter {
    /// Filter event from address.
    pub fn with_from_address(self, address: FieldElement) -> (r: Self)
        ensures
            r.from_address == Some(address),
            r.keys == self.keys,
            r.data == self.data,
    {
        let mut this = self;
        this.from_address = Some(address);
        this
    }

    /// Filter event with key.
    pub fn with_keys(self, keys: Vec<FieldElement>) -> (r: Self)
        ensures
            r.keys == keys,
            r.from_address == self.from_address,
            r.data == self.data,
    {
        let mut this = self;
        this.keys = keys;
        this
    }

    /// Filter event with data.
    pub fn with_data(self, data: Vec<FieldElement>) -> (r: Self)
        ensures
            r.data == data,
            r.from_address == self.from_address,
            r.keys == self.keys,
    {
        let mut this = self;
        this.data = data;
        this
    }
}

impl L2ToL1MessageFilter {
    /// Filter message to address.
    pub fn with_to_address(self, to: FieldElement) -> (r: Self)
        ensures
            r.to_address == Some(to),
            r.payload == self.payload,
    {
        let mut this = self;
        this.to_address = Some(to);
        this
    }

    /// Filter message with payload.
    pub fn with_payload(self, payload: Vec<FieldElement>) -> (r: Self)
        ensures
            r.payload == payload,
            r.to_address == self.to_address,
    {
        let mut this = self;
        this.payload = payload;
        this
    }
}

impl StateUpdateFilter {
    /// Add storage diff filter to state update filter.
    pub fn add_storage_diff<F: Fn(StorageDiffFilter) -> StorageDiffFilter>(
        self,
        closure: F,
    ) -> (r: Self)
        requires
            closure.requires(((StorageDiffFilter { contract_address: None }),)),
        ensures
            exists|g: StorageDiffFilter|
                #[trigger] closure.ensures(((StorageDiffFilter { contract_address: None }),), g)
                    && r.storage_diffs@ == self.storage_diffs@.push(g),
            r.declared_contracts == self.declared_contracts,
            r.deployed_contracts == self.deployed_contracts,
            r.nonces == self.nonces,
    {
        let g = closure(StorageDiffFilter::default());
        let mut this = self;
        this.storage_diffs.push(g);
        this
    }

    /// Add declared contract filter to state update.
    pub fn add_declared_contract<F: Fn(DeclaredContractFilter) -> DeclaredContractFilter>(
        self,
        closure: F,
    ) -> (r: Self)
        requires
            closure.requires(((DeclaredContractFilter { class_hash: None }),)),
        ensures
            exists|g: DeclaredContractFilter|
                #[trigger] closure.ensures(((DeclaredContractFilter { class_hash: None }),), g)
                    && r.declared_contracts@ == self.declared_contracts@.push(g),
            r.storage_diffs == self.storage_diffs,
            r.deployed_contracts == self.deployed_contracts,
            r.nonces == self.nonces,
    {
        let g = closure(DeclaredContractFilter::default());
        let mut this = self;
        this.declared_contracts.push(g);
        this
    }

    /// Add deployed contract filter to state update.
    pub fn add_deployed_contract<F: Fn(DeployedContractFilter) -> DeployedContractFilter>(
        self,
        closure: F,
    ) -> (r: Self)
        requires
            closure.requires(
                ((DeployedContractFilter { contract_address: None, class_hash: None }),),
            ),
        ensures
            exists|g: DeployedContractFilter|
                #[trigger] closure.ensures(
                    ((DeployedContractFilter { contract_address: None, class_hash: None }),),
                    g,
                ) && r.deployed_contracts@ == self.deployed_contracts@.push(g),
            r.storage_diffs == self.storage_diffs,
            r.declared_contracts == self.declared_contracts,
            r.nonces == self.nonces,
    {
        let g = closure(DeployedContractFilter::default());
        let mut this = self;
        this.deployed_contracts.push(g);
        this
    }

    /// Add nonce update filter to state update.
    pub fn add_nonce_update<F: Fn(NonceUpdateFilter) -> NonceUpdateFilter>(
        self,
        closure: F,
    ) -> (r: Self)
        requires
            closure.requires(((NonceUpdateFilter { contract_address: None, nonce: None }),)),
        ensures
            exists|g: NonceUpdateFilter|
                #[trigger] closure.ensures(
                    ((NonceUpdateFilter { contract_address: None, nonce: None }),),
                    g,
                ) && r.nonces@ == self.nonces@.push(g),
            r.storage_diffs == self.storage_diffs,
            r.declared_contracts == self.declared_contracts,
            r.deployed_contracts == self.deployed_contracts,
    {
        let g = closure(NonceUpdateFilter::default());
        let mut this = self;
        this.nonces.push(g);
        this
    }
}

impl StorageDiffFilter {
    /// Filter with contract address.
    pub fn with_contract_address(self, address: FieldElement) -> (r: Self)
        ensures
            r.contract_address == Some(address),
    {
        let mut this = self;
        this.contract_address = Some(address);
        this
    }
}

impl DeclaredContractFilter {
    /// Filter with class hash.
    pub fn with_class_hash(self, address: FieldElement) -> (r: Self)
        ensures
            r.class_hash == Some(address),
    {
        let mut this = self;
        this.class_hash = Some(address);
        this
    }
}

impl DeployedContractFilter {
    /// Filter with contract address.
    pub fn with_contract_address(self, address: FieldElement) -> (r: Self)
        ensures
            r.contract_address == Some(address),
            r.class_hash == self.class_hash,
    {
        let mut this = self;
        this.contract_address = Some(address);
        this
    }

    /// Filter with class hash.
    pub fn with_class_hash(self, address: FieldElement) -> (r: Self)
        ensures
            r.class_hash == Some(address),
            r.contract_address == self.contract_address,
    {
        let mut this = self;
        this.class_hash = Some(address);
        this
    }
}

impl NonceUpdateFilter {
    /// Filter with contract address.
    pub fn with_contract_address(self, address: FieldElement) -> (r: Self)
        ensures
            r.contract_address == Some(address),
            r.nonce == self.nonce,
    {
        let mut this = self;
        this.contract_address = Some(address);
        this
    }

    /// Filter with nonce.
    pub fn with_nonce(self, nonce: FieldElement) -> (r: Self)
        ensures
            r.nonce == Some(nonce),
            r.contract_address == self.contract_address,
    {
        let mut this = self;
        this.nonce = Some(nonce);
        this
    }
}

impl TransactionFilter {
    pub fn matches(&self, tx: &Transaction) -> (r: bool)
        ensures
            r == transaction_matches(*self, *tx),
    {
        match &self.filter {
            None => true,
            Some(TransactionFilterVariant::InvokeV0(f)) => f.matches(tx),
            Some(TransactionFilterVariant::InvokeV1(f)) => f.matches(tx),
            Some(TransactionFilterVariant::Deploy(f)) => f.matches(tx),
            Some(TransactionFilterVariant::Declare(f)) => f.matches(tx),
            Some(TransactionFilterVariant::L1Handler(f)) => f.matches(tx),
            Some(TransactionFilterVariant::DeployAccount(f)) => f.matches(tx),
        }
    }
}

impl InvokeTransactionV0Filter {
    pub fn matches(&self, tx: &Transaction) -> (r: bool)
        ensures
            r == invoke_v0_matches(*self, *tx),
    {
        match &tx.transaction {
            Some(TransactionVariant::InvokeV0(t)) => opt_fe_matches(
                &self.contract_address,
                &t.contract_address,
            ) && opt_fe_matches(&self.entry_point_selector, &t.entry_point_selector)
                && prefix_matches(&self.calldata, &t.calldata),
            _ => false,
        }
    }
}

impl InvokeTransactionV1Filter {
    pub fn matches(&self, tx: &Transaction) -> (r: bool)
        ensures
            r == invoke_v1_matches(*self, *tx),
    {
        match &tx.transaction {
            Some(TransactionVariant::InvokeV1(t)) => opt_fe_matches(
                &self.sender_address,
                &t.sender_address,
            ) && prefix_matches(&self.calldata, &t.calldata),
            _ => false,
        }
    }
}

impl DeployTransactionFilter {
    pub fn matches(&self, tx: &Transaction) -> (r: bool)
        ensures
            r == deploy_matches(*self, *tx),
    {
        match &tx.transaction {
            Some(TransactionVariant::Deploy(t)) => opt_fe_matches(&self.class_hash, &t.class_hash)
                && opt_fe_matches(&self.contract_address_salt, &t.contract_address_salt)
                && prefix_matches(&self.constructor_calldata, &t.constructor_calldata),
            _ => false,
        }
    }
}

impl DeclareTransactionFilter {
    pub fn matches(&self, tx: &Transaction) -> (r: bool)
        ensures
            r == declare_matches(*self, *tx),
    {
        match &tx.transaction {
            Some(TransactionVariant::Declare(t)) => opt_fe_matches(&self.class_hash, &t.class_hash)
                && opt_fe_matches(&self.sender_address, &t.sender_address),
            _ => false,
        }
    }
}

impl L1HandlerTransactionFilter {
    pub fn matches(&self, tx: &Transaction) -> (r: bool)
        ensures
            r == l1_handler_matches(*self, *tx),
    {
        match &tx.transaction {
            Some(TransactionVariant::L1Handler(t)) => opt_fe_matches(
                &self.contract_address,
                &t.contract_address,
            ) && opt_fe_matches(&self.entry_point_selector, &t.entry_point_selector)
                && prefix_matches(&self.calldata, &t.calldata),
            _ => false,
        }
    }
}

impl DeployAccountTransactionFilter {
    pub fn matches(&self, tx: &Transaction) -> (r: bool)
        ensures
            r == deploy_account_matches(*self, *tx),
    {
        match &tx.transaction {
            Some(TransactionVariant::DeployAccount(t)) => opt_fe_matches(
                &self.class_hash,
                &t.class_hash,
            ) && opt_fe_matches(&self.contract_address_salt, &t.contract_address_salt)
                && prefix_matches(&self.constructor_calldata, &t.constructor_calldata),
            _ => false,
        }
    }
}

impl EventFilter {
    pub fn matches(&self, event: &Event) -> (r: bool)
        ensures
            r == event_matches(*self, *event),
    {
        opt_fe_matches(&self.from_address, &event.from_address) && prefix_matches(
            &self.keys,
            &event.keys,
        ) && prefix_matches(&self.data, &event.data)
    }
}

impl L2ToL1MessageFilter {
    pub fn matches(&self, message: &L2ToL1Message) -> (r: bool)
        ensures
            r == message_matches(*self, *message),
    {
        opt_fe_matches(&self.to_address, &message.to_address) && prefix_matches(
            &self.payload,
            &message.payload,
        )
    }
}

impl StorageDiffFilter {
    pub fn matches(&self, storage_diff: &StorageDiff) -> (r: bool)
        ensures
            r == storage_diff_matches(*self, *storage_diff),
    {
        opt_fe_matches(&self.contract_address, &storage_diff.contract_address)
    }
}

impl DeclaredContractFilter {
    pub fn matches(&self, declared_contract: &DeclaredContract) -> (r: bool)
        ensures
            r == declared_contract_matches(*self, *declared_contract),
    {
        opt_fe_matches(&self.class_hash, &declared_contract.class_hash)
    }
}

impl DeployedContractFilter {
    pub fn matches(&self, deployed_contract: &DeployedContract) -> (r: bool)
        ensures
            r == deployed_contract_matches(*self, *deployed_contract),
    {
        opt_fe_matches(&self.contract_address, &deployed_contract.contract_address)
            && opt_fe_matches(&self.class_hash, &deployed_contract.class_hash)
    }
}

impl NonceUpdateFilter {
    pub fn matches(&self, nonce: &NonceUpdate) -> (r: bool)
        ensures
            r == nonce_update_matches(*self, *nonce),
    {
        opt_fe_matches(&self.contract_address, &nonce.contract_address) && opt_fe_matches(
            &self.nonce,
            &nonce.nonce,
        )
    }
}

} // verus!
