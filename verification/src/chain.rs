//! Cursors, block headers and the canonical chain builder.
//!
//! The builder keeps an ordered run of block headers forming a
//! parent-linked chain. It supports growing the chain at the tip, cutting a
//! prefix into an immutable segment, and snapshotting the live tail.

use vstd::prelude::*;

verus! {

/// Status of a block relative to the chain's finality threshold.
#[derive(Debug, Copy, Clone, PartialEq, Eq, Structural)]
pub enum BlockStatus {
    Pending,
    Accepted,
    Finalized,
    Rejected,
}

/// A chain position: block number plus block hash.
#[derive(Debug)]
pub struct Cursor {
    pub number: u64,
    pub hash: Vec<u8>,
}

/// Mathematical value of a [`Cursor`].
pub struct CursorView {
    pub number: u64,
    pub hash: Seq<u8>,
}

impl View for Cursor {
    type V = CursorView;

    open spec fn view(&self) -> CursorView {
        CursorView { number: self.number, hash: self.hash@ }
    }
}

/// Compare two byte strings for equality.
pub(crate) fn hashes_eq(a: &Vec<u8>, b: &Vec<u8>) -> (r: bool)
    ensures
        r == (a@ == b@),
{
    if a.len() != b.len() {
        return false;
    }
    let mut i: usize = 0;
    while i < a.len()
        invariant
            0 <= i <= a.len(),
            a.len() == b.len(),
            forall|j: int| 0 <= j < i ==> a@[j] == b@[j],
        decreases a.len() - i,
    {
        if a[i] != b[i] {
            return false;
        }
        i = i + 1;
    }
    proof {
        assert(a@ =~= b@);
    }
    true
}

/// Copy a byte string.
fn clone_bytes(v: &Vec<u8>) -> (r: Vec<u8>)
    ensures
        r@ == v@,
{
    let r = v.clone();
    proof {
        assert(r@ =~= v@);
    }
    r
}

impl Cursor {
    /// Create a cursor from a block number and hash.
    pub fn new(number: u64, hash: Vec<u8>) -> (r: Cursor)
        ensures
            r@.number == number,
            r@.hash == hash@,
    {
        Cursor { number, hash }
    }
}

impl Clone for Cursor {
    fn clone(&self) -> (r: Cursor)
        ensures
            r@ == self@,
    {
        Cursor { number: self.number, hash: clone_bytes(&self.hash) }
    }
}

impl PartialEq for Cursor {
    fn eq(&self, other: &Cursor) -> (r: bool) {
        self.number == other.number && hashes_eq(&self.hash, &other.hash)
    }
}

impl vstd::std_specs::cmp::PartialEqSpecImpl for Cursor {
    open spec fn obeys_eq_spec() -> bool {
        true
    }

    open spec fn eq_spec(&self, other: &Cursor) -> bool {
        self@ == other@
    }
}

impl Eq for Cursor {

}

/// Header of an ingested block: its own position, the parent's hash, its
/// status, and its timestamp in seconds.
#[derive(Debug)]
pub struct BlockInfo {
    pub number: u64,
    pub hash: Vec<u8>,
    pub parent: Vec<u8>,
    pub status: BlockStatus,
    pub timestamp: u64,
}

/// Mathematical value of a [`BlockInfo`].
pub struct BlockInfoView {
    pub number: u64,
    pub hash: Seq<u8>,
    pub parent: Seq<u8>,
    pub status: BlockStatus,
    pub timestamp: u64,
}

impl View for BlockInfo {
    type V = BlockInfoView;

    open spec fn view(&self) -> BlockInfoView {
        BlockInfoView {
            number: self.number,
            hash: self.hash@,
            parent: self.parent@,
            status: self.status,
            timestamp: self.timestamp,
        }
    }
}

impl BlockInfoView {
    /// The cursor identifying this block.
    pub open spec fn cursor(self) -> CursorView {
        CursorView { number: self.number, hash: self.hash }
    }
}

impl Clone for BlockInfo {
    fn clone(&self) -> (r: BlockInfo)
        ensures
            r@ == self@,
    {
        BlockInfo {
            number: self.number,
            hash: clone_bytes(&self.hash),
            parent: clone_bytes(&self.parent),
            status: self.status,
            timestamp: self.timestamp,
        }
    }
}

impl BlockInfo {
    /// The cursor identifying this block.
    pub fn cursor(&self) -> (r: Cursor)
        ensures
            r@ == self@.cursor(),
    {
        Cursor { number: self.number, hash: clone_bytes(&self.hash) }
    }
}

/// Errors of the canonical chain builder.
#[derive(Debug, Copy, Clone, PartialEq, Eq, Structural)]
pub enum ChainError {
    /// The grown block does not link to the current tip.
    NonContiguous,
    /// The operation needs a non-empty chain.
    EmptyChain,
    /// A segment cut asked for more blocks than the chain holds, or none.
    InvalidCut,
}

/// The views of a run of block headers.
pub open spec fn views_of(v: Seq<BlockInfo>) -> Seq<BlockInfoView> {
    v.map_values(|b: BlockInfo| b@)
}

/// The headers form a parent-linked chain: numbers increase by one and each
/// block's parent hash is the previous block's hash.
pub open spec fn is_chain(s: Seq<BlockInfoView>) -> bool {
    forall|i: int|
        1 <= i < s.len() ==> {
            &&& (#[trigger] s[i]).number == s[i - 1].number + 1
            &&& s[i].parent == s[i - 1].hash
        }
}

/// Whether block `b` may extend the chain `s` at the tip. An empty chain
/// accepts any block.
pub open spec fn can_extend(s: Seq<BlockInfoView>, b: BlockInfoView) -> bool {
    s.len() == 0 || (b.number == s.last().number + 1 && b.parent == s.last().hash)
}

/// First and last cursor of a chain segment.
#[derive(Debug, Clone)]
pub struct SegmentInfo {
    pub first_block: Cursor,
    pub last_block: Cursor,
}

/// An immutable ordered run of contiguous block headers.
#[derive(Debug, Clone)]
pub struct CanonicalSegment {
    blocks: Vec<BlockInfo>,
}

impl View for CanonicalSegment {
    type V = Seq<BlockInfoView>;

    closed spec fn view(&self) -> Seq<BlockInfoView> {
        views_of(self.blocks@)
    }
}

impl CanonicalSegment {
    /// A segment is well formed when it is non-empty and parent-linked.
    pub open spec fn well_formed(self) -> bool {
        self@.len() > 0 && is_chain(self@)
    }

    /// The cursors of the first and last block of the segment.
    pub fn info(&self) -> (r: SegmentInfo)
        requires
            self@.len() > 0,
        ensures
            r.first_block@ == self@.first().cursor(),
            r.last_block@ == self@.last().cursor(),
    {
        SegmentInfo {
            first_block: self.blocks[0].cursor(),
            last_block: self.blocks[self.blocks.len() - 1].cursor(),
        }
    }

    /// Number of blocks the segment holds.
    pub fn block_count(&self) -> (r: usize)
        ensures
            r == self@.len(),
    {
        self.blocks.len()
    }

    /// The header at the given position.
    pub fn block_at(&self, i: usize) -> (r: BlockInfo)
        requires
            i < self@.len(),
        ensures
            r@ == self@[i as int],
    {
        self.blocks[i].clone()
    }
}

/// Maintains the current canonical chain tip and the run of recent blocks
/// since the last segment cut.
#[derive(Debug)]
pub struct CanonicalChainBuilder {
    blocks: Vec<BlockInfo>,
}

impl View for CanonicalChainBuilder {
    type V = Seq<BlockInfoView>;

    closed spec fn view(&self) -> Seq<BlockInfoView> {
        views_of(self.blocks@)
    }
}

impl CanonicalChainBuilder {
    /// The builder's invariant: the stored headers form a chain.
    pub open spec fn well_formed(self) -> bool {
        is_chain(self@)
    }

    /// Create an empty builder.
    pub fn new() -> (r: CanonicalChainBuilder)
        ensures
            r@ == Seq::<BlockInfoView>::empty(),
            r.well_formed(),
    {
        let r = CanonicalChainBuilder { blocks: Vec::new() };
        assert(r@ =~= Seq::<BlockInfoView>::empty());
        r
    }

    /// Rebuild a builder from a previously persisted segment, verifying
    /// that the segment is internally contiguous.
    #[verifier::rlimit(60)]
    pub fn restore_from_segment(segment: CanonicalSegment) -> (r: Result<
        CanonicalChainBuilder,
        ChainError,
    >)
        ensures
            match r {
                Ok(b) => is_chain(segment@) && segment@.len() > 0 && b@ == segment@
                    && b.well_formed(),
                Err(ChainError::EmptyChain) => segment@.len() == 0,
                Err(ChainError::NonContiguous) => !is_chain(segment@),
                Err(_) => false,
            },
    {
        if segment.blocks.len() == 0 {
            return Err(ChainError::EmptyChain);
        }
        let mut i: usize = 1;
        while i < segment.blocks.len()
            invariant
                1 <= i <= segment@.len(),
                forall|j: int|
                    1 <= j < i ==> (#[trigger] segment@[j]).number == segment@[j - 1].number + 1
                        && segment@[j].parent == segment@[j - 1].hash,
            decreases segment@.len() - i,
        {
            let ok = segment.blocks[i - 1].number < u64::MAX && segment.blocks[i].number
                == segment.blocks[i - 1].number + 1 && hashes_eq(
                &segment.blocks[i].parent,
                &segment.blocks[i - 1].hash,
            );
            if !ok {
                proof {
                    let v = segment@;
                    assert(!(v[i as int].number == v[i as int - 1].number + 1 && v[i as int].parent
                        == v[i as int - 1].hash));
                    assert(!is_chain(v));
                }
                return Err(ChainError::NonContiguous);
            }
            i = i + 1;
        }
        Ok(CanonicalChainBuilder { blocks: segment.blocks })
    }

    /// Number of blocks currently held.
    pub fn segment_size(&self) -> (r: usize)
        ensures
            r == self@.len(),
    {
        self.blocks.len()
    }

    /// The cursors of the first and last held block, if any.
    pub fn info(&self) -> (r: Option<SegmentInfo>)
        ensures
            match r {
                Some(info) => self@.len() > 0 && info.first_block@ == self@.first().cursor()
                    && info.last_block@ == self@.last().cursor(),
                None => self@.len() == 0,
            },
    {
        if self.blocks.len() == 0 {
            None
        } else {
            Some(
                SegmentInfo {
                    first_block: self.blocks[0].cursor(),
                    last_block: self.blocks[self.blocks.len() - 1].cursor(),
                },
            )
        }
    }

    /// Whether `block` can extend the chain at the tip.
    pub fn can_grow(&self, block: &BlockInfo) -> (r: bool)
        ensures
            r == can_extend(self@, block@),
    {
        if self.blocks.len() == 0 {
            true
        } else {
            let tip = &self.blocks[self.blocks.len() - 1];
            tip.number < u64::MAX && block.number == tip.number + 1 && hashes_eq(
                &block.parent,
                &tip.hash,
            )
        }
    }

    /// Append `block` at the tip. Succeeds exactly when the block's parent
    /// is the current tip and its number is the tip's successor.
    pub fn grow(&mut self, block: BlockInfo) -> (r: Result<(), ChainError>)
        requires
            old(self).well_formed(),
        ensures
            final(self).well_formed(),
            match r {
                Ok(_) => can_extend(old(self)@, block@) && final(self)@ == old(self)@.push(block@),
                Err(ChainError::NonContiguous) => !can_extend(old(self)@, block@) && final(self)@
                    == old(self)@,
                Err(_) => false,
            },
    {
        if !self.can_grow(&block) {
            return Err(ChainError::NonContiguous);
        }
        let ghost old_view = self@;
        self.blocks.push(block);
        proof {
            assert(self@ =~= old_view.push(self@.last()));
            assert forall|i: int| 1 <= i < self@.len() implies {
                &&& (#[trigger] self@[i]).number == self@[i - 1].number + 1
                &&& self@[i].parent == self@[i - 1].hash
            } by {
                if i < old_view.len() {
                    assert(old_view[i] == self@[i] && old_view[i - 1] == self@[i - 1]);
                }
            }
        }
        Ok(())
    }

    /// Snapshot of the live tail since the last cut.
    pub fn current_segment(&self) -> (r: Result<CanonicalSegment, ChainError>)
        requires
            self.well_formed(),
        ensures
            match r {
                Ok(seg) => self@.len() > 0 && seg@ == self@ && seg.well_formed(),
                Err(ChainError::EmptyChain) => self@.len() == 0,
                Err(_) => false,
            },
    {
        if self.blocks.len() == 0 {
            return Err(ChainError::EmptyChain);
        }
        let mut out: Vec<BlockInfo> = Vec::new();
        let mut i: usize = 0;
        while i < self.blocks.len()
            invariant
                0 <= i <= self@.len(),
                out@.len() == i,
                views_of(out@) =~= self@.take(i as int),
            decreases self@.len() - i,
        {
            out.push(self.blocks[i].clone());
            proof {
                assert(views_of(out@) =~= self@.take(i + 1));
            }
            i = i + 1;
        }
        let seg = CanonicalSegment { blocks: out };
        proof {
            assert(seg@ =~= self@);
        }
        Ok(seg)
    }

    /// Remove and return the first `n` blocks as an immutable segment. The
    /// chain must hold at least `n` blocks, and `n` must be positive.
    pub fn take_segment(&mut self, n: usize) -> (r: Result<CanonicalSegment, ChainError>)
        requires
            old(self).well_formed(),
        ensures
            final(self).well_formed(),
            match r {
                Ok(seg) => {
                    &&& 0 < n <= old(self)@.len()
                    &&& seg@ == old(self)@.take(n as int)
                    &&& seg.well_formed()
                    &&& final(self)@ == old(self)@.skip(n as int)
                },
                Err(ChainError::InvalidCut) => {
                    &&& (n == 0 || n > old(self)@.len())
                    &&& final(self)@ == old(self)@
                },
                Err(_) => false,
            },
    {
        if n == 0 || n > self.blocks.len() {
            return Err(ChainError::InvalidCut);
        }
        let ghost old_view = self@;
        let mut taken: Vec<BlockInfo> = Vec::new();
        let mut i: usize = 0;
        while i < n
            invariant
                0 <= i <= n <= self@.len(),
                self@ == old_view,
                taken@.len() == i,
                views_of(taken@) =~= self@.take(i as int),
            decreases n - i,
        {
            taken.push(self.blocks[i].clone());
            proof {
                assert(views_of(taken@) =~= self@.take(i + 1));
            }
            i = i + 1;
        }
        let mut rest: Vec<BlockInfo> = Vec::new();
        let mut j: usize = n;
        while j < self.blocks.len()
            invariant
                n <= j <= self@.len(),
                self@ == old_view,
                rest@.len() == j - n,
                views_of(rest@) =~= self@.subrange(n as int, j as int),
            decreases self@.len() - j,
        {
            rest.push(self.blocks[j].clone());
            proof {
                assert(views_of(rest@) =~= self@.subrange(
                    n as int,
                    j + 1,
                ));
            }
            j = j + 1;
        }
        let seg = CanonicalSegment { blocks: taken };
        self.blocks = rest;
        proof {
            assert(seg@ =~= old_view.take(n as int));
            assert(self@ =~= old_view.skip(n as int));
            lemma_chain_take(old_view, n as int);
            lemma_chain_skip(old_view, n as int);
        }
        Ok(seg)
    }
}

/// Answer to "which cursor follows this one on the chain".
#[derive(Debug)]
pub enum NextCursor {
    /// The chain continues at this cursor.
    Continue(Cursor),
    /// The given cursor is the chain's head.
    AtHead,
    /// The given cursor is not on the chain.
    Invalid,
}

/// In a chain, the block at position `i` has the first block's number plus
/// `i`.
pub proof fn lemma_chain_numbers(s: Seq<BlockInfoView>, i: int)
    requires
        is_chain(s),
        0 <= i < s.len(),
    ensures
        s[i].number == s[0].number + i,
    decreases i,
{
    if i > 0 {
        lemma_chain_numbers(s, i - 1);
    }
}

impl CanonicalSegment {
    /// The cursor that follows `current` on this segment: the first block
    /// when `current` is `None`, the next block when `current` is on the
    /// segment, `AtHead` at the segment's last block, and `Invalid` for a
    /// cursor the segment does not hold.
    #[verifier::rlimit(100)]
    #[verifier::spinoff_prover]
    pub fn next_cursor(&self, current: &Option<Cursor>) -> (r: NextCursor)
        requires
            self.well_formed(),
        ensures
            match r {
                NextCursor::Continue(c) => match current {
                    None => c@ == self@.first().cursor(),
                    Some(cur) => exists|i: int|
                        0 <= i < self@.len() - 1 && (#[trigger] self@[i]).cursor() == cur@ && c@
                            == self@[i + 1].cursor(),
                },
                NextCursor::AtHead => current matches Some(cur) && cur@ == self@.last().cursor(),
                NextCursor::Invalid => current matches Some(cur) && forall|i: int|
                    0 <= i < self@.len() ==> (#[trigger] self@[i]).cursor() != cur@,
            },
    {
        proof {
            assert(self@.len() == self.blocks@.len());
            assert forall|i: int| 0 <= i < self@.len() implies #[trigger] self@[i]
                == self.blocks@[i]@ && self@[i].number == self@[0].number + i by {
                lemma_chain_numbers(self@, i);
            }
        }
        let cur = match current {
            None => {
                let c = self.blocks[0].cursor();
                proof {
                    assert(c@ == self@.first().cursor());
                }
                return NextCursor::Continue(c);
            },
            Some(cur) => cur,
        };
        let first_number = self.blocks[0].number;
        let last_number = self.blocks[self.blocks.len() - 1].number;
        proof {
            assert(first_number == self@[0].number);
            assert(last_number == self@[self@.len() - 1].number);
        }
        if cur.number < first_number || cur.number > last_number {
            proof {
                assert forall|i: int| 0 <= i < self@.len() implies (#[trigger] self@[i]).cursor()
                    != cur@ by {
                    assert(self@[i].cursor().number == self@[i].number);
                }
            }
            return NextCursor::Invalid;
        }
        let idx: usize = (cur.number - first_number) as usize;
        proof {
            assert(idx < self@.len());
        }
        if !hashes_eq(&self.blocks[idx].hash, &cur.hash) {
            proof {
                assert forall|i: int| 0 <= i < self@.len() implies (#[trigger] self@[i]).cursor()
                    != cur@ by {
                    if self@[i].number == cur@.number {
                        assert(i == idx);
                    }
                }
            }
            return NextCursor::Invalid;
        }
        if idx == self.blocks.len() - 1 {
            NextCursor::AtHead
        } else {
            let c = self.blocks[idx + 1].cursor();
            proof {
                assert((self@[idx as int]).cursor() == cur@);
            }
            NextCursor::Continue(c)
        }
    }
}

impl CanonicalChainBuilder {
    /// The held block with the given number, if the chain covers it.
    #[verifier::rlimit(100)]
    #[verifier::spinoff_prover]
    pub fn find_by_number(&self, number: u64) -> (r: Option<BlockInfo>)
        requires
            self.well_formed(),
        ensures
            match r {
                Some(b) => exists|i: int|
                    0 <= i < self@.len() && #[trigger] self@[i] == b@ && b@.number == number,
                None => forall|i: int|
                    0 <= i < self@.len() ==> (#[trigger] self@[i]).number != number,
            },
    {
        proof {
            assert(self@.len() == self.blocks@.len());
            assert forall|i: int| 0 <= i < self@.len() implies #[trigger] self@[i]
                == self.blocks@[i]@ && self@[i].number == self@[0].number + i by {
                lemma_chain_numbers(self@, i);
            }
        }
        if self.blocks.len() == 0 {
            return None;
        }
        let first_number = self.blocks[0].number;
        let last_number = self.blocks[self.blocks.len() - 1].number;
        proof {
            assert(first_number == self@[0].number);
            assert(last_number == self@[self@.len() - 1].number);
        }
        if number < first_number || number > last_number {
            return None;
        }
        let idx: usize = (number - first_number) as usize;
        proof {
            assert(idx < self@.len());
        }
        let b = self.blocks[idx].clone();
        proof {
            assert(b@ == self.blocks@[idx as int]@);
            assert(self@[idx as int] == self.blocks@[idx as int]@);
            assert(self@[idx as int].number == self@[0].number + idx);
            assert(self@[idx as int] == b@ && b@.number == number);
        }
        Some(b)
    }

    /// Drop every block whose number is above `number`, keeping the chain
    /// up to and including it. The chain must cover `number`. Returns the
    /// number of blocks dropped.
    #[verifier::rlimit(100)]
    #[verifier::spinoff_prover]
    pub fn truncate_to(&mut self, number: u64) -> (r: Result<usize, ChainError>)
        requires
            old(self).well_formed(),
        ensures
            final(self).well_formed(),
            match r {
                Ok(dropped) => {
                    &&& old(self)@.len() > 0
                    &&& dropped < old(self)@.len()
                    &&& old(self)@.first().number <= number <= old(self)@.last().number
                    &&& final(self)@ == old(self)@.take(old(self)@.len() - dropped)
                    &&& final(self)@.len() > 0
                    &&& final(self)@.last().number == number
                },
                Err(ChainError::EmptyChain) => old(self)@.len() == 0 && final(self)@ == old(
                    self,
                )@,
                Err(ChainError::InvalidCut) => old(self)@.len() > 0 && !(old(
                    self,
                )@.first().number <= number <= old(self)@.last().number) && final(self)@ == old(
                    self,
                )@,
                Err(_) => false,
            },
    {
        proof {
            assert(self@.len() == self.blocks@.len());
            assert forall|i: int| 0 <= i < self@.len() implies #[trigger] self@[i]
                == self.blocks@[i]@ && self@[i].number == self@[0].number + i by {
                lemma_chain_numbers(self@, i);
            }
        }
        if self.blocks.len() == 0 {
            return Err(ChainError::EmptyChain);
        }
        let first_number = self.blocks[0].number;
        let last_number = self.blocks[self.blocks.len() - 1].number;
        proof {
            assert(first_number == self@[0].number);
            assert(last_number == self@[self@.len() - 1].number);
        }
        if number < first_number || number > last_number {
            return Err(ChainError::InvalidCut);
        }
        let keep: usize = (number - first_number) as usize + 1;
        let dropped = self.blocks.len() - keep;
        let ghost old_view = self@;
        self.blocks.truncate(keep);
        proof {
            assert(self@ =~= old_view.take(keep as int));
            lemma_chain_take(old_view, keep as int);
            assert(self@.last() == old_view[keep - 1]);
        }
        Ok(dropped)
    }
}

/// A prefix of a chain is a chain.
#[verifier::rlimit(60)]
pub proof fn lemma_chain_take(s: Seq<BlockInfoView>, n: int)
    requires
        is_chain(s),
        0 <= n <= s.len(),
    ensures
        is_chain(s.take(n)),
{
    let pre = s.take(n);
    assert forall|i: int| 1 <= i < pre.len() implies {
        &&& (#[trigger] pre[i]).number == pre[i - 1].number + 1
        &&& pre[i].parent == pre[i - 1].hash
    } by {
        assert(pre[i] == s[i] && pre[i - 1] == s[i - 1]);
    }
}

/// A suffix of a chain is a chain.
#[verifier::rlimit(60)]
pub proof fn lemma_chain_skip(s: Seq<BlockInfoView>, n: int)
    requires
        is_chain(s),
        0 <= n <= s.len(),
    ensures
        is_chain(s.skip(n)),
{
    let post = s.skip(n);
    assert forall|i: int| 1 <= i < post.len() implies {
        &&& (#[trigger] post[i]).number == post[i - 1].number + 1
        &&& post[i].parent == post[i - 1].hash
    } by {
        assert(post[i] == s[i + n] && post[i - 1] == s[i + n - 1]);
    }
}

/// Cutting a chain leaves two chains that still link: the first block
/// remaining after the cut is the child of the last block taken.
#[verifier::rlimit(100)]
#[verifier::spinoff_prover]
pub proof fn lemma_segment_cut_links(s: Seq<BlockInfoView>, n: int)
    requires
        is_chain(s),
        0 < n < s.len(),
    ensures
        is_chain(s.take(n)),
        is_chain(s.skip(n)),
        s.skip(n).first().parent == s.take(n).last().hash,
        s.skip(n).first().number == s.take(n).last().number + 1,
{
    lemma_chain_take(s, n);
    lemma_chain_skip(s, n);
    assert(s.skip(n).first() == s[n]);
    assert(s.take(n).last() == s[n - 1]);
}

} // verus!

