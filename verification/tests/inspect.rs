use dna_core::inspect::{
    GroupScan, SegmentLayout, crosses_segment_boundary, group_block_selection, plan_group_scan,
};
use roaring::RoaringBitmap;

fn layout() -> SegmentLayout {
    SegmentLayout { segment_size: 100, group_size: 10 }
}

#[test]
fn inspect_segment_layout_arithmetic() {
    let layout = layout();
    assert_eq!(layout.segment_start(0), 0);
    assert_eq!(layout.segment_start(99), 0);
    assert_eq!(layout.segment_start(250), 200);
    assert_eq!(layout.segment_group_blocks(), 1000);
    assert_eq!(layout.segment_group_start(999), 0);
    assert_eq!(layout.segment_group_start(1000), 1000);
    assert_eq!(layout.segment_group_start(2500), 2000);
}

#[test]
fn inspect_header_selection_covers_the_group() {
    let selection = group_block_selection(1000, 2000, true, None);
    assert!(selection.contains(1000));
    assert!(selection.contains(1999));
    assert!(!selection.contains(2000));
    assert!(!selection.contains(999));
    assert_eq!(selection.len(), 1000);
}

#[test]
fn inspect_address_selection_copies_the_index() {
    let mut marked = RoaringBitmap::new();
    marked.insert(1200);
    marked.insert(1500);
    let selection = group_block_selection(1000, 2000, false, Some(&marked));
    assert!(selection.contains(1200));
    assert!(selection.contains(1500));
    assert!(!selection.contains(1000));
    assert_eq!(selection.len(), 2);
}

#[test]
fn inspect_selection_without_index_is_empty() {
    let selection = group_block_selection(1000, 2000, false, None);
    assert!(selection.is_empty());
}

#[test]
fn inspect_scan_starts_at_first_marked_block() {
    let mut marked = RoaringBitmap::new();
    marked.insert(1500);
    marked.insert(1200);
    assert_eq!(plan_group_scan(&marked, 2000), GroupScan::ReadFrom(1200));
}

#[test]
fn inspect_scan_skips_empty_groups() {
    let empty = RoaringBitmap::new();
    assert_eq!(plan_group_scan(&empty, 2000), GroupScan::SkipTo(2000));
}

#[test]
fn inspect_segment_boundary_crossing() {
    let layout = layout();
    assert!(!crosses_segment_boundary(&layout, 200, 250));
    assert!(crosses_segment_boundary(&layout, 200, 300));
    assert!(crosses_segment_boundary(&layout, 200, 1000));
}
