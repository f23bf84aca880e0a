//! The ingestion state machine.
//!
//! Ingestion polls the chain's head and finalized cursors, downloads blocks
//! with bounded parallelism, grows the canonical chain, and decides when to
//! cut an immutable chain segment and when to re-upload the recent tail.
//! The decisions live here as pure transition functions; the surrounding
//! loop performs the downloads and uploads and hands their results back as
//! events.

use vstd::prelude::*;

use crate::chain::{
    BlockInfo, CanonicalChainBuilder, CanonicalSegment, Cursor, can_extend, is_chain,
};

verus! {

/// Failure kinds of the ingestion loop.
#[derive(Debug, Copy, Clone, PartialEq, Eq, Structural)]
pub enum IngestionError {
    /// An internal invariant was broken; the leader must abort.
    Model,
    /// A provider request failed for good.
    RpcRequest,
    /// Writing the ingestion state record failed.
    StateClientRequest,
    /// Writing a canonical chain segment failed.
    CanonicalChainStoreRequest,
    /// Writing a block artifact failed.
    BlockStoreRequest,
    /// The leader lease could not be kept alive.
    LockKeepAlive,
}

/// Tuning knobs of the ingestion service.
#[derive(Debug, Clone)]
pub struct IngestionServiceOptions {
    /// Maximum number of concurrent ingestion tasks.
    pub max_concurrent_tasks: usize,
    /// How many blocks in a single chain segment.
    pub chain_segment_size: usize,
    /// How many finalized blocks to wait before uploading a chain segment.
    pub chain_segment_upload_offset_size: usize,
    /// Override the ingestion starting block.
    pub override_starting_block: Option<u64>,
    /// How often to refresh the head block, in milliseconds.
    pub head_refresh_interval_ms: u64,
    /// How often to refresh the finalized block, in milliseconds.
    pub finalized_refresh_interval_ms: u64,
}

impl Default for IngestionServiceOptions {
    fn default() -> (r: Self)
        ensures
            r.max_concurrent_tasks == 100,
            r.chain_segment_size == 10000,
            r.chain_segment_upload_offset_size == 100,
            r.override_starting_block is None,
            r.head_refresh_interval_ms == 3000,
            r.finalized_refresh_interval_ms == 30000,
    {
        IngestionServiceOptions {
            max_concurrent_tasks: 100,
            chain_segment_size: 10000,
            chain_segment_upload_offset_size: 100,
            override_starting_block: None,
            head_refresh_interval_ms: 3000,
            finalized_refresh_interval_ms: 30000,
        }
    }
}

/// The data carried while ingesting normally.
#[derive(Debug)]
pub struct IngestState {
    /// The provider's finalized cursor, as last seen.
    pub finalized: Cursor,
    /// The provider's head cursor, as last seen.
    pub head: Cursor,
    /// The highest block number handed to a download task.
    pub queued_block_number: u64,
}

/// The two top-level states of the ingestion loop.
#[derive(Debug)]
pub enum IngestionState {
    /// Normal operation.
    Ingest(IngestState),
    /// A reorganization was detected; the chain must be walked back.
    Recover,
}

impl IngestionState {
    /// A short name for the current state.
    pub fn state_name(&self) -> (r: &'static str)
    {
        match self {
            IngestionState::Recover => "recover",
            IngestionState::Ingest(_) => "ingest",
        }
    }
}

/// What the surrounding loop must do after a task-completion tick.
pub struct TickActions {
    /// An immutable chain segment that was cut and must be uploaded.
    pub chain_segment: Option<CanonicalSegment>,
    /// The recent chain tail that must be re-uploaded.
    pub recent_segment: Option<CanonicalSegment>,
}

/// The decision core of the ingestion service: the canonical chain under
/// construction and the queue of outstanding block downloads, in
/// submission order.
pub struct IngestionService {
    options: IngestionServiceOptions,
    chain_builder: CanonicalChainBuilder,
    task_queue: Vec<u64>,
}

impl IngestionService {
    /// The blocks of the canonical chain held in memory, oldest first.
    pub closed spec fn chain(self) -> Seq<crate::chain::BlockInfoView> {
        self.chain_builder@
    }

    /// The block numbers whose downloads are outstanding, in submission
    /// order.
    pub closed spec fn tasks(self) -> Seq<u64> {
        self.task_queue@
    }

    /// The options the service was created with.
    pub closed spec fn spec_options(self) -> IngestionServiceOptions {
        self.options
    }

    /// The service invariant: the held blocks form a chain, the chain
    /// segment size is positive, and queued block numbers are consecutive.
    pub open spec fn well_formed(self) -> bool {
        &&& is_chain(self.chain())
        &&& self.spec_options().chain_segment_size >= 1
        &&& forall|i: int|
            1 <= i < self.tasks().len() ==> #[trigger] self.tasks()[i] == self.tasks()[i - 1] + 1
    }

    /// Create the decision core with an empty chain and no outstanding
    /// downloads. The chain segment size must be positive.
    pub fn new(options: IngestionServiceOptions) -> (r: IngestionService)
        requires
            options.chain_segment_size >= 1,
        ensures
            r.well_formed(),
            r.chain() == Seq::<crate::chain::BlockInfoView>::empty(),
            r.tasks() == Seq::<u64>::empty(),
            r.spec_options() == options,
    {
        let r = IngestionService {
            options,
            chain_builder: CanonicalChainBuilder::new(),
            task_queue: Vec::new(),
        };
        assert(r.tasks() =~= Seq::<u64>::empty());
        r
    }

    /// Whether another download may be started without exceeding the
    /// concurrency bound.
    pub fn can_push_task(&self) -> (r: bool)
        ensures
            r == (self.tasks().len() < self.spec_options().max_concurrent_tasks),
    {
        self.task_queue.len() < self.options.max_concurrent_tasks
    }

    /// Hand one block number to a download task.
    fn push_ingest_block_by_number(&mut self, block_number: u64)
        ensures
            final(self).tasks() == old(self).tasks().push(block_number),
            final(self).chain() == old(self).chain(),
            final(self).spec_options() == old(self).spec_options(),
    {
        self.task_queue.push(block_number);
    }

    /// Queue downloads for the blocks after `queued_block_number`, up to
    /// the head and up to the concurrency bound. Returns the new highest
    /// queued block number.
    fn fill_task_queue(&mut self, queued_block_number: u64, head_number: u64) -> (r: u64)
        requires
            old(self).well_formed(),
            old(self).tasks().len() > 0 ==> old(self).tasks().last() == queued_block_number,
        ensures
            final(self).well_formed(),
            final(self).chain() == old(self).chain(),
            final(self).spec_options() == old(self).spec_options(),
            queued_block_number <= r,
            r <= queued_block_number || r <= head_number,
            final(self).tasks().len() > 0 ==> final(self).tasks().last() == r,
            final(self).tasks().len() == old(self).tasks().len() + r - queued_block_number,
            r < head_number ==> final(self).tasks().len()
                >= final(self).spec_options().max_concurrent_tasks,
            forall|i: int|
                0 <= i < old(self).tasks().len() ==> #[trigger] final(self).tasks()[i] == old(
                    self,
                ).tasks()[i],
    {
        let mut block_number: u64 = queued_block_number;
        while self.task_queue.len() < self.options.max_concurrent_tasks && block_number
            < head_number
            invariant
                self.well_formed(),
                self.chain() == old(self).chain(),
                self.spec_options() == old(self).spec_options(),
                queued_block_number <= block_number,
                block_number <= queued_block_number || block_number <= head_number,
                self.tasks().len() > 0 ==> self.tasks().last() == block_number,
                self.tasks().len() == old(self).tasks().len() + block_number
                    - queued_block_number,
                forall|i: int|
                    0 <= i < old(self).tasks().len() ==> #[trigger] self.tasks()[i] == old(
                        self,
                    ).tasks()[i],
            decreases head_number - block_number,
        {
            block_number = block_number + 1;
            self.push_ingest_block_by_number(block_number);
        }
        block_number
    }

    /// React to a refreshed finalized cursor. The finalized cursor may
    /// never go backward; an unchanged cursor is a no-op. Returns the new
    /// state and, when the cursor advanced, the finalized block number that
    /// must be persisted.
    pub fn tick_finalized(&self, state: IngestState, new_finalized: Cursor) -> (r: Result<
        (IngestState, Option<u64>),
        IngestionError,
    >)
        ensures
            match r {
                Ok((new_state, persist)) => {
                    &&& state.finalized@.number <= new_finalized@.number
                    &&& new_state.head@ == state.head@
                    &&& new_state.queued_block_number == state.queued_block_number
                    &&& if state.finalized@ == new_finalized@ {
                        persist is None && new_state.finalized@ == state.finalized@
                    } else {
                        persist == Some(new_finalized@.number) && new_state.finalized@
                            == new_finalized@
                    }
                },
                Err(e) => e == IngestionError::Model && new_finalized@.number
                    < state.finalized@.number,
            },
    {
        if state.finalized.number > new_finalized.number {
            return Err(IngestionError::Model);
        }
        if state.finalized == new_finalized {
            return Ok((state, None));
        }
        let number = new_finalized.number;
        Ok((IngestState { finalized: new_finalized, ..state }, Some(number)))
    }

    /// React to a refreshed head cursor. A head that moved backward, or
    /// that changed hash at the same height, means a reorganization:
    /// the machine transitions to recovery. Otherwise the head advances
    /// and new downloads are queued.
    pub fn tick_head(&mut self, state: IngestState, new_head: Cursor) -> (r: IngestionState)
        requires
            old(self).well_formed(),
            old(self).tasks().len() > 0 ==> old(self).tasks().last()
                == state.queued_block_number,
        ensures
            final(self).well_formed(),
            final(self).chain() == old(self).chain(),
            final(self).spec_options() == old(self).spec_options(),
            match r {
                IngestionState::Recover => {
                    &&& state.head@ != new_head@
                    &&& (new_head@.number < state.head@.number || (new_head@.number
                        == state.head@.number && new_head@.hash != state.head@.hash))
                    &&& final(self).tasks() == old(self).tasks()
                },
                IngestionState::Ingest(new_state) => {
                    &&& (state.head@ == new_head@ || state.head@.number < new_head@.number || (
                    state.head@.number == new_head@.number && state.head@.hash == new_head@.hash))
                    &&& new_state.finalized@ == state.finalized@
                    &&& if state.head@ == new_head@ {
                        new_state.head@ == state.head@ && new_state.queued_block_number
                            == state.queued_block_number && final(self).tasks() == old(
                            self,
                        ).tasks()
                    } else {
                        new_state.head@ == new_head@ && state.queued_block_number
                            <= new_state.queued_block_number && (final(self).tasks().len() > 0
                            ==> final(self).tasks().last() == new_state.queued_block_number)
                    }
                },
            },
    {
        if state.head == new_head {
            return IngestionState::Ingest(state);
        }
        if new_head.number < state.head.number {
            return IngestionState::Recover;
        }
        if new_head.number == state.head.number && !(state.head == new_head) {
            // Same height, different hash.
            return IngestionState::Recover;
        }
        let queued = self.fill_task_queue(state.queued_block_number, new_head.number);
        IngestionState::Ingest(
            IngestState { head: new_head, queued_block_number: queued, ..state },
        )
    }
}

impl IngestionService {
    /// React to a completed block download, in submission order. The block
    /// must extend the chain, else the machine transitions to recovery.
    /// Growing the chain may trigger a segment cut, and the recent tail is
    /// re-uploaded whenever the block is not yet finalized or a cut
    /// happened.
    #[verifier::rlimit(100)]
    #[verifier::spinoff_prover]
    pub fn tick_task_completed(&mut self, state: IngestState, block_info: BlockInfo) -> (r: Result<
        (IngestionState, TickActions),
        IngestionError,
    >)
        requires
            old(self).well_formed(),
            old(self).spec_options().chain_segment_size
                + old(self).spec_options().chain_segment_upload_offset_size <= usize::MAX,
            old(self).tasks().len() > 0,
            old(self).tasks().last() == state.queued_block_number,
        ensures
            final(self).well_formed(),
            final(self).spec_options() == old(self).spec_options(),
            ({
                let css = old(self).spec_options().chain_segment_size;
                let offset = old(self).spec_options().chain_segment_upload_offset_size;
                let grown = old(self).chain().push(block_info@);
                let cut = grown.len() == css + offset;
                match r {
                    Ok((next, actions)) => if can_extend(old(self).chain(), block_info@) {
                        &&& next matches IngestionState::Ingest(new_state)
                        &&& ({
                            let new_state = next->Ingest_0;
                            &&& new_state.finalized@ == state.finalized@
                            &&& new_state.head@ == state.head@
                            &&& state.queued_block_number <= new_state.queued_block_number
                            &&& (final(self).tasks().len() > 0 ==> final(self).tasks().last()
                                == new_state.queued_block_number)
                        })
                        &&& final(self).chain() == if cut {
                            grown.skip(css as int)
                        } else {
                            grown
                        }
                        &&& match actions.chain_segment {
                            Some(seg) => cut && seg@ == grown.take(css as int),
                            None => !cut,
                        }
                        &&& match actions.recent_segment {
                            Some(seg) => (cut || block_info@.number >= state.finalized@.number)
                                && seg@ == final(self).chain(),
                            None => !cut && block_info@.number < state.finalized@.number,
                        }
                    } else {
                        &&& next is Recover
                        &&& final(self).chain() == old(self).chain()
                        &&& actions.chain_segment is None
                        &&& actions.recent_segment is None
                    },
                    Err(e) => {
                        &&& e == IngestionError::Model
                        &&& can_extend(old(self).chain(), block_info@)
                        &&& cut
                        &&& offset == 0
                    },
                }
            }),
    {
        let ghost old_tasks = self.tasks();
        self.task_queue.remove(0);
        proof {
            assert forall|i: int|
                1 <= i < self.tasks().len() implies #[trigger] self.tasks()[i] == self.tasks()[i
                - 1] + 1 by {
                assert(self.tasks()[i] == old_tasks[i + 1]);
                assert(self.tasks()[i - 1] == old_tasks[i]);
            }
            if self.tasks().len() > 0 {
                assert(self.tasks().last() == old_tasks.last());
            }
        }

        if !self.chain_builder.can_grow(&block_info) {
            return Ok(
                (
                    IngestionState::Recover,
                    TickActions { chain_segment: None, recent_segment: None },
                ),
            );
        }

        let mut should_upload_recent = block_info.number >= state.finalized.number;

        if self.chain_builder.grow(block_info).is_err() {
            return Err(IngestionError::Model);
        }

        let target = self.options.chain_segment_size
            + self.options.chain_segment_upload_offset_size;
        let mut chain_segment: Option<CanonicalSegment> = None;
        if self.chain_builder.segment_size() == target {
            match self.chain_builder.take_segment(self.options.chain_segment_size) {
                Ok(seg) => {
                    chain_segment = Some(seg);
                    should_upload_recent = true;
                },
                Err(_) => {
                    return Err(IngestionError::Model);
                },
            }
        }

        let recent_segment = if should_upload_recent {
            match self.chain_builder.current_segment() {
                Ok(seg) => Some(seg),
                Err(_) => {
                    return Err(IngestionError::Model);
                },
            }
        } else {
            None
        };

        let queued = self.fill_task_queue(state.queued_block_number, state.head.number);
        Ok(
            (
                IngestionState::Ingest(IngestState { queued_block_number: queued, ..state }),
                TickActions { chain_segment, recent_segment },
            ),
        )
    }
}

/// Outcome of probing one block while walking the chain back after a
/// reorganization.
pub enum RecoveryProbe {
    /// The probed block matches the provider: the common ancestor is
    /// found, and blocks after it must be invalidated.
    Ancestor(Cursor),
    /// The probed block differs; probe this block number next.
    WalkBack(u64),
    /// No block of the in-memory window matches the provider.
    Exhausted,
}

impl IngestionService {
    /// The block number ingestion starts from when nothing was persisted
    /// yet: the configured override, or the genesis block.
    pub fn starting_block(&self) -> (r: u64)
        ensures
            r == (match self.spec_options().override_starting_block {
                Some(n) => n,
                None => 0u64,
            }),
    {
        match self.options.override_starting_block {
            Some(n) => n,
            None => 0,
        }
    }

    /// Restore the canonical chain from a previously persisted recent
    /// segment. Returns the cursor of the restored tip, which the caller
    /// must confirm against the provider before resuming.
    #[verifier::rlimit(100)]
    #[verifier::spinoff_prover]
    pub fn restore_chain(&mut self, segment: CanonicalSegment) -> (r: Result<
        Cursor,
        IngestionError,
    >)
        requires
            old(self).well_formed(),
        ensures
            final(self).well_formed(),
            final(self).spec_options() == old(self).spec_options(),
            final(self).tasks() == old(self).tasks(),
            match r {
                Ok(tip) => {
                    &&& is_chain(segment@)
                    &&& segment@.len() > 0
                    &&& final(self).chain() == segment@
                    &&& tip@ == segment@.last().cursor()
                },
                Err(e) => {
                    &&& e == IngestionError::Model
                    &&& !(is_chain(segment@) && segment@.len() > 0)
                    &&& final(self).chain() == old(self).chain()
                },
            },
    {
        match CanonicalChainBuilder::restore_from_segment(segment) {
            Ok(builder) => {
                let info = match builder.info() {
                    Some(info) => info,
                    None => {
                        return Err(IngestionError::Model);
                    },
                };
                self.chain_builder = builder;
                proof {
                    assert forall|i: int|
                        1 <= i < self.tasks().len() implies #[trigger] self.tasks()[i]
                        == self.tasks()[i - 1] + 1 by {
                        assert(old(self).tasks()[i] == old(self).tasks()[i - 1] + 1);
                    }
                }
                Ok(info.last_block)
            },
            Err(_) => Err(IngestionError::Model),
        }
    }

    /// Confirm that the restored tip still matches the chain according to
    /// the provider. A mismatch means the chain reorganized while the
    /// service was offline.
    pub fn check_resume(expected_tip: &Cursor, provider_info: &BlockInfo) -> (r: Result<
        (),
        IngestionError,
    >)
        ensures
            match r {
                Ok(_) => expected_tip@ == provider_info@.cursor(),
                Err(e) => e == IngestionError::Model && expected_tip@ != provider_info@.cursor(),
            },
    {
        let cursor = provider_info.cursor();
        if *expected_tip == cursor {
            Ok(())
        } else {
            Err(IngestionError::Model)
        }
    }

    /// Begin the chain with its first ingested block, genesis or the
    /// configured starting block.
    #[verifier::rlimit(100)]
    #[verifier::spinoff_prover]
    pub fn start_with_genesis(&mut self, block_info: BlockInfo) -> (r: Result<
        Cursor,
        IngestionError,
    >)
        requires
            old(self).well_formed(),
            old(self).chain().len() == 0,
        ensures
            final(self).well_formed(),
            final(self).spec_options() == old(self).spec_options(),
            final(self).tasks() == old(self).tasks(),
            r is Ok,
            final(self).chain() == old(self).chain().push(block_info@),
            r->Ok_0@ == block_info@.cursor(),
    {
        let cursor = block_info.cursor();
        if self.chain_builder.grow(block_info).is_err() {
            return Err(IngestionError::Model);
        }
        proof {
            assert forall|i: int|
                1 <= i < self.tasks().len() implies #[trigger] self.tasks()[i] == self.tasks()[i
                - 1] + 1 by {
                assert(old(self).tasks()[i] == old(self).tasks()[i - 1] + 1);
            }
        }
        Ok(cursor)
    }

    /// Compare one block of the in-memory chain against the provider's
    /// block at the same height, walking backward from the tip until the
    /// hashes agree.
    #[verifier::rlimit(100)]
    #[verifier::spinoff_prover]
    pub fn recovery_probe(&self, number: u64, provider_hash: &Vec<u8>) -> (r: RecoveryProbe)
        requires
            self.well_formed(),
        ensures
            match r {
                RecoveryProbe::Ancestor(c) => exists|i: int|
                    0 <= i < self.chain().len() && (#[trigger] self.chain()[i]).number == number
                        && self.chain()[i].hash == provider_hash@ && c@ == self.chain()[i].cursor(),
                RecoveryProbe::WalkBack(next) => {
                    &&& next == number - 1
                    &&& self.chain().len() > 0
                    &&& self.chain().first().number < number
                    &&& exists|i: int|
                        0 <= i < self.chain().len() && (#[trigger] self.chain()[i]).number == number
                            && self.chain()[i].hash != provider_hash@
                },
                RecoveryProbe::Exhausted => forall|i: int|
                    0 <= i < self.chain().len() ==> (#[trigger] self.chain()[i]).number != number
                        || self.chain()[i].hash != provider_hash@ || self.chain()[i].number
                        == self.chain().first().number,
            },
    {
        let block = match self.chain_builder.find_by_number(number) {
            Some(b) => b,
            None => {
                return RecoveryProbe::Exhausted;
            },
        };
        let ghost w = choose|i: int|
            0 <= i < self.chain().len() && #[trigger] self.chain()[i] == block@ && block@.number
                == number;
        let matches = crate::chain::hashes_eq(&block.hash, provider_hash);
        if matches {
            let c = block.cursor();
            proof {
                assert(self.chain()[w].number == number && self.chain()[w].hash == provider_hash@
                    && c@ == self.chain()[w].cursor());
            }
            return RecoveryProbe::Ancestor(c);
        }
        let info = match self.chain_builder.info() {
            Some(info) => info,
            None => {
                return RecoveryProbe::Exhausted;
            },
        };
        if number > info.first_block.number {
            proof {
                assert(self.chain()[w].number == number && self.chain()[w].hash
                    != provider_hash@);
                assert(self.chain().first().number < number);
            }
            RecoveryProbe::WalkBack(number - 1)
        } else {
            proof {
                assert(number <= self.chain().first().number);
                assert forall|i: int|
                    0 <= i < self.chain().len() implies (#[trigger] self.chain()[i]).number
                    != number || self.chain()[i].hash != provider_hash@ || self.chain()[i].number
                    == self.chain().first().number by {
                    if self.chain()[i].number == number {
                        crate::chain::lemma_chain_numbers(self.chain(), i);
                        crate::chain::lemma_chain_numbers(self.chain(), w);
                        assert(number >= self.chain().first().number);
                    }
                }
            }
            RecoveryProbe::Exhausted
        }
    }

    /// Truncate the chain to the common ancestor found by recovery.
    /// Returns the first invalidated block number, one past the ancestor.
    #[verifier::rlimit(100)]
    #[verifier::spinoff_prover]
    pub fn recover_to_ancestor(&mut self, ancestor_number: u64) -> (r: Result<
        u64,
        IngestionError,
    >)
        requires
            old(self).well_formed(),
            ancestor_number < u64::MAX,
        ensures
            final(self).well_formed(),
            final(self).spec_options() == old(self).spec_options(),
            final(self).tasks() == old(self).tasks(),
            match r {
                Ok(first_invalidated) => {
                    &&& first_invalidated == ancestor_number + 1
                    &&& final(self).chain().len() > 0
                    &&& final(self).chain().last().number == ancestor_number
                    &&& exists|k: int|
                        0 < k <= old(self).chain().len() && final(self).chain() == old(
                            self,
                        ).chain().take(k)
                },
                Err(e) => e == IngestionError::Model && final(self).chain() == old(self).chain(),
            },
    {
        match self.chain_builder.truncate_to(ancestor_number) {
            Ok(dropped) => {
                proof {
                    let k = old(self).chain().len() - dropped;
                    assert(self.chain() =~= old(self).chain().take(k));
                    assert(self.chain().len() > 0);
                    assert(0 < k <= old(self).chain().len());
                    assert forall|i: int|
                        1 <= i < self.tasks().len() implies #[trigger] self.tasks()[i]
                        == self.tasks()[i - 1] + 1 by {
                        assert(old(self).tasks()[i] == old(self).tasks()[i - 1] + 1);
                    }
                }
                Ok(ancestor_number + 1)
            },
            Err(_) => {
                proof {
                    assert forall|i: int|
                        1 <= i < self.tasks().len() implies #[trigger] self.tasks()[i]
                        == self.tasks()[i - 1] + 1 by {
                        assert(old(self).tasks()[i] == old(self).tasks()[i - 1] + 1);
                    }
                }
                Err(IngestionError::Model)
            },
        }
    }
}

/// Whether the head cursor is stale enough to refresh while the service is
/// catching up: the further behind, the rarer the refresh.
pub fn should_refresh_head(gap: u64, millis_since_refresh: u64) -> (r: bool)
    ensures
        r == ((gap > 50 && millis_since_refresh > 60000) || (gap > 10 && millis_since_refresh
            > 10000)),
{
    (gap > 50 && millis_since_refresh > 60000) || (gap > 10 && millis_since_refresh > 10000)
}

} // verus!
