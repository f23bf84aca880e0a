//! Compaction of finalized blocks into large segments.
//!
//! The segment service waits until enough finalized blocks are available,
//! then assembles exactly `segment_size` consecutive blocks into one
//! segment. Downloads run concurrently; the results are fed back in
//! submission order, and any gap in the block numbers aborts the tick
//! before anything is uploaded.

use vstd::prelude::*;

use crate::chain::{Cursor, CursorView};

verus! {

/// Compaction failed; the tick is abandoned and retried.
#[derive(Debug, Copy, Clone, PartialEq, Eq, Structural)]
pub struct CompactionError;

/// A block body: two parallel lists of per-fragment index entries and
/// per-fragment payloads.
#[derive(Debug)]
pub struct Block {
    pub index: Vec<Vec<u8>>,
    pub body: Vec<Vec<u8>>,
}

/// A block body is well formed when each fragment payload has its index
/// entry.
pub open spec fn block_fragments_match(b: Block) -> bool {
    b.index@.len() == b.body@.len()
}

impl Block {
    /// Check that the block's indexes and body fragments line up, as must
    /// hold before the block is written to the store.
    pub fn check_fragments(&self) -> (r: bool)
        ensures
            r == block_fragments_match(*self),
    {
        self.index.len() == self.body.len()
    }
}

/// What the segment service should do this tick.
#[derive(Debug)]
pub enum SegmentPlan {
    /// Enough finalized blocks are available: compact, starting here.
    Compact,
    /// Wait until the finalized cursor moves.
    WaitFinalized,
    /// Wait until the head moves.
    WaitHead,
}

/// The cursors handed to the compactor, in the order their downloads were
/// submitted.
pub open spec fn fetched_cursors(v: Seq<(Cursor, Block)>) -> Seq<CursorView> {
    v.map_values(|p: (Cursor, Block)| p.0@)
}

/// The blocks handed to the compactor, in the same order.
pub open spec fn fetched_blocks(v: Seq<(Cursor, Block)>) -> Seq<Block> {
    v.map_values(|p: (Cursor, Block)| p.1)
}

/// The block number expected just before position `i`: the first block's
/// for the first position, else the previous cursor's.
pub open spec fn prior_number(first: CursorView, cursors: Seq<CursorView>, i: int) -> u64 {
    if i == 0 {
        first.number
    } else {
        cursors[i - 1].number
    }
}

/// Each fetched cursor either is the segment's first block or follows its
/// predecessor by exactly one block number.
pub open spec fn cursors_link(first: CursorView, cursors: Seq<CursorView>) -> bool {
    forall|i: int|
        0 <= i < cursors.len() ==> (#[trigger] cursors[i]) == first || cursors[i].number
            == prior_number(first, cursors, i) + 1
}

/// A compacted run of consecutive blocks, ready for upload.
#[derive(Debug)]
pub struct BlockSegment {
    /// Cursor of the first block in the segment.
    pub first_block: Cursor,
    /// Cursor of the last block in the segment.
    pub last_block: Cursor,
    /// The block bodies, in ascending block order.
    pub blocks: Vec<Block>,
}

/// Compacts runs of finalized blocks into segments of a fixed size.
pub struct SegmentService {
    segment_size: usize,
}

impl SegmentService {
    /// How many blocks each produced segment holds.
    pub closed spec fn spec_segment_size(self) -> usize {
        self.segment_size
    }

    /// Create a segment service producing segments of `segment_size`
    /// consecutive blocks.
    pub fn new(segment_size: usize) -> (r: SegmentService)
        requires
            segment_size >= 1,
        ensures
            r.spec_segment_size() == segment_size,
    {
        SegmentService { segment_size }
    }

    /// Decide the tick: compact when a whole segment of blocks at or below
    /// both the finalized cursor and the head is available; otherwise wait
    /// on whichever of the two is behind.
    pub fn plan_tick(&self, first_block_in_segment: &Cursor, head: u64, finalized: u64) -> (r:
        SegmentPlan)
        ensures
            ({
                let latest = if finalized < head {
                    finalized
                } else {
                    head
                };
                match r {
                    SegmentPlan::Compact => first_block_in_segment@.number
                        + self.spec_segment_size() <= latest,
                    SegmentPlan::WaitFinalized => first_block_in_segment@.number
                        + self.spec_segment_size() > latest && finalized < head,
                    SegmentPlan::WaitHead => first_block_in_segment@.number
                        + self.spec_segment_size() > latest && finalized >= head,
                }
            }),
    {
        let latest_available = if finalized < head {
            finalized
        } else {
            head
        };
        let first = first_block_in_segment.number;
        if first <= latest_available && latest_available - first >= self.segment_size as u64 {
            SegmentPlan::Compact
        } else if finalized < head {
            SegmentPlan::WaitFinalized
        } else {
            SegmentPlan::WaitHead
        }
    }

    /// Assemble the fetched blocks into one segment. Succeeds exactly when
    /// the compactor was handed `segment_size` blocks whose cursors run
    /// consecutively from the segment's first block; any reordering or gap
    /// aborts the tick with nothing built.
    #[verifier::loop_isolation(false)]
    pub fn compact(&self, first_block: &Cursor, fetched: Vec<(Cursor, Block)>) -> (r: Result<
        BlockSegment,
        CompactionError,
    >)
        requires
            self.spec_segment_size() >= 1,
        ensures
            match r {
                Ok(seg) => {
                    &&& fetched@.len() == self.spec_segment_size()
                    &&& cursors_link(first_block@, fetched_cursors(fetched@))
                    &&& seg.first_block@ == first_block@
                    &&& seg.last_block@ == fetched_cursors(fetched@).last()
                    &&& seg.blocks@ == fetched_blocks(fetched@)
                },
                Err(_) => !(fetched@.len() == self.spec_segment_size() && cursors_link(
                    first_block@,
                    fetched_cursors(fetched@),
                )),
            },
    {
        let ghost orig = fetched@;
        let mut queue = fetched;
        let total: usize = queue.len();
        proof {
            assert(orig.len() == total);
        }
        let mut blocks: Vec<Block> = Vec::new();
        let mut last_cursor: Cursor = first_block.clone();
        let mut i: usize = 0;
        while queue.len() > 0
            invariant
                0 <= i <= orig.len() <= usize::MAX,
                i + queue@.len() == orig.len(),
                queue@ =~= orig.skip(i as int),
                blocks@.len() == i,
                blocks@ =~= fetched_blocks(orig).take(i as int),
                last_cursor@ == prior_number_cursor(first_block@, fetched_cursors(orig), i as int),
                forall|j: int|
                    0 <= j < i ==> (#[trigger] fetched_cursors(orig)[j]) == first_block@
                        || fetched_cursors(orig)[j].number == prior_number(
                        first_block@,
                        fetched_cursors(orig),
                        j,
                    ) + 1,
            decreases queue@.len(),
        {
            let (c, b) = queue.remove(0);
            proof {
                assert(c@ == fetched_cursors(orig)[i as int]);
                assert(b == fetched_blocks(orig)[i as int]);
            }
            let ok = c == *first_block || (last_cursor.number < u64::MAX && c.number
                == last_cursor.number + 1);
            if !ok {
                proof {
                    let cs = fetched_cursors(orig);
                    assert(0 <= i < cs.len());
                    assert(!(cs[i as int] == first_block@ || cs[i as int].number == prior_number(
                        first_block@,
                        cs,
                        i as int,
                    ) + 1));
                    assert(!cursors_link(first_block@, cs)) by {
                        if cursors_link(first_block@, cs) {
                            assert(cs[i as int] == first_block@ || cs[i as int].number
                                == prior_number(first_block@, cs, i as int) + 1);
                        }
                    }
                    assert(!(orig.len() == self.spec_segment_size() && cursors_link(
                        first_block@,
                        fetched_cursors(orig),
                    )));
                }
                return Err(CompactionError);
            }
            last_cursor = c;
            blocks.push(b);
            proof {
                assert(blocks@ =~= fetched_blocks(orig).take(i + 1));
                assert(queue@ =~= orig.skip(i + 1));
            }
            i = i + 1;
        }
        if blocks.len() != self.segment_size {
            proof {
                assert(i == orig.len());
                assert(orig.len() != self.spec_segment_size());
            }
            return Err(CompactionError);
        }
        proof {
            assert(i == orig.len());
            assert(blocks@ =~= fetched_blocks(orig));
            assert(last_cursor@ == fetched_cursors(orig).last());
        }
        Ok(
            BlockSegment {
                first_block: first_block.clone(),
                last_block: last_cursor,
                blocks,
            },
        )
    }
}

/// The cursor view standing just before position `i`: the segment's first
/// cursor for position zero, else the previous fetched cursor.
pub open spec fn prior_number_cursor(
    first: CursorView,
    cursors: Seq<CursorView>,
    i: int,
) -> CursorView {
    if i == 0 {
        first
    } else {
        cursors[i - 1]
    }
}

} // verus!
