//! Walking stored segment groups to inspect their blocks.
//!
//! Segment groups carry per-index bitmaps that mark which blocks hold
//! matching data. The inspection walk builds a bitmap of blocks to read
//! for each group — every block when headers are wanted, else the blocks
//! the address index marked — and then either starts reading at the first
//! marked block or skips the whole group.
//!
//! The bitmaps are `roaring::RoaringBitmap`s. The library states what each
//! bitmap operation does to the bitmap's contents and verifies the walk's
//! decisions against those statements.

use vstd::prelude::*;

use roaring::RoaringBitmap;

verus! {

#[verifier::external_type_specification]
#[verifier::external_body]
pub struct ExRoaringBitmap(RoaringBitmap);

/// The set of 32-bit values a roaring bitmap holds.
pub uninterp spec fn bitmap_contents(b: RoaringBitmap) -> Set<u32>;

/// Relies on roaring::RoaringBitmap::new: the new bitmap is empty.
#[verifier::external_body]
fn bitmap_new() -> (r: RoaringBitmap)
    ensures
        bitmap_contents(r) == Set::<u32>::empty(),
{
    RoaringBitmap::new()
}

/// Relies on roaring::RoaringBitmap::insert_range: afterwards the bitmap
/// holds its old values and every value of the half-open range.
#[verifier::external_body]
fn bitmap_insert_range(b: &mut RoaringBitmap, start: u32, end: u32)
    ensures
        bitmap_contents(*final(b)) == bitmap_contents(*old(b)).union(
            Set::new(|x: u32| start <= x < end),
        ),
{
    b.insert_range(start..end);
}

/// Relies on roaring's `|=` (BitOrAssign): afterwards the target holds the
/// union of both bitmaps' values.
#[verifier::external_body]
fn bitmap_union_with(b: &mut RoaringBitmap, other: &RoaringBitmap)
    ensures
        bitmap_contents(*final(b)) == bitmap_contents(*old(b)).union(bitmap_contents(*other)),
{
    *b |= other;
}

/// Relies on roaring::RoaringBitmap::min: the smallest held value, or
/// `None` exactly when the bitmap is empty.
#[verifier::external_body]
fn bitmap_min(b: &RoaringBitmap) -> (r: Option<u32>)
    ensures
        match r {
            Some(m) => bitmap_contents(*b).contains(m) && forall|x: u32|
                bitmap_contents(*b).contains(x) ==> m <= x,
            None => bitmap_contents(*b) == Set::<u32>::empty(),
        },
{
    b.min()
}

/// How blocks are grouped into segments and segment groups on storage.
#[derive(Debug, Copy, Clone, PartialEq, Eq, Structural)]
pub struct SegmentLayout {
    /// How many blocks one segment holds.
    pub segment_size: u64,
    /// How many segments one segment group holds.
    pub group_size: u64,
}

impl SegmentLayout {
    /// The layout is well formed when both sizes are positive and a whole
    /// group's block count fits the block numbering.
    pub open spec fn well_formed(self) -> bool {
        &&& self.segment_size >= 1
        &&& self.group_size >= 1
        &&& self.segment_size * self.group_size <= u64::MAX
    }

    /// The first block of the segment holding `block`.
    pub fn segment_start(&self, block: u64) -> (r: u64)
        requires
            self.well_formed(),
        ensures
            r == block - (block % self.segment_size),
    {
        proof {
            assert(block % self.segment_size <= block) by (nonlinear_arith)
                requires
                    self.segment_size >= 1,
            ;
        }
        block - block % self.segment_size
    }

    /// How many blocks one segment group covers.
    pub fn segment_group_blocks(&self) -> (r: u64)
        requires
            self.well_formed(),
        ensures
            r == self.segment_size * self.group_size,
    {
        self.segment_size * self.group_size
    }

    /// The first block of the segment group holding `block`.
    pub fn segment_group_start(&self, block: u64) -> (r: u64)
        requires
            self.well_formed(),
        ensures
            r == block - (block % ((self.segment_size * self.group_size) as u64)),
    {
        let group_blocks = self.segment_group_blocks();
        proof {
            assert(self.segment_size * self.group_size >= 1) by (nonlinear_arith)
                requires
                    self.segment_size >= 1 && self.group_size >= 1,
            ;
            assert(block % group_blocks <= block) by (nonlinear_arith)
                requires
                    group_blocks >= 1,
            ;
        }
        block - block % group_blocks
    }
}

/// Which blocks of one segment group the inspection must read: all of them
/// when headers are inspected, else exactly the blocks the address index
/// marked; none when there is no address index to consult.
pub fn group_block_selection(
    group_start: u32,
    group_end: u32,
    want_headers: bool,
    address_blocks: Option<&RoaringBitmap>,
) -> (r: RoaringBitmap)
    requires
        group_start <= group_end,
    ensures
        bitmap_contents(r) == (if want_headers {
            Set::new(|x: u32| group_start <= x < group_end)
        } else {
            match address_blocks {
                Some(marked) => bitmap_contents(*marked),
                None => Set::<u32>::empty(),
            }
        }),
{
    let mut selection = bitmap_new();
    if want_headers {
        bitmap_insert_range(&mut selection, group_start, group_end);
        proof {
            assert(bitmap_contents(selection) =~= Set::new(|x: u32| group_start <= x < group_end));
        }
    } else if let Some(marked) = address_blocks {
        bitmap_union_with(&mut selection, marked);
        proof {
            assert(bitmap_contents(selection) =~= bitmap_contents(*marked));
        }
    }
    selection
}

/// What the inspection walk does with one segment group.
#[derive(Debug, Copy, Clone, PartialEq, Eq, Structural)]
pub enum GroupScan {
    /// Read blocks starting at this one, the group's first marked block.
    ReadFrom(u32),
    /// Nothing to read here: continue at the next group's first block.
    SkipTo(u32),
}

/// Decide how to scan a segment group: start at the smallest selected
/// block, or skip ahead to the end of the group when nothing is selected.
pub fn plan_group_scan(selection: &RoaringBitmap, group_end: u32) -> (r: GroupScan)
    ensures
        match r {
            GroupScan::ReadFrom(block) => bitmap_contents(*selection).contains(block) && forall|
                x: u32,
            |
                bitmap_contents(*selection).contains(x) ==> block <= x,
            GroupScan::SkipTo(next) => next == group_end && bitmap_contents(*selection)
                == Set::<u32>::empty(),
        },
{
    match bitmap_min(selection) {
        Some(block) => GroupScan::ReadFrom(block),
        None => GroupScan::SkipTo(group_end),
    }
}

/// Whether reading `block` leaves the segment that starts at
/// `current_segment_start`, so that the next segment must be opened.
pub fn crosses_segment_boundary(
    layout: &SegmentLayout,
    current_segment_start: u64,
    block: u64,
) -> (r: bool)
    requires
        layout.well_formed(),
    ensures
        r == (current_segment_start < block - (block % layout.segment_size)),
{
    let start = layout.segment_start(block);
    current_segment_start < start
}

} // verus!
