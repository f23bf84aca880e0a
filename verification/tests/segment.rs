use dna_core::chain::Cursor;
use dna_core::segment::{Block, SegmentPlan, SegmentService};

fn body(tag: u8) -> Block {
    Block { index: vec![vec![tag]], body: vec![vec![tag, tag]] }
}

fn cursor(number: u64) -> Cursor {
    Cursor::new(number, vec![number as u8])
}

#[test]
fn segment_plan_compacts_when_enough_finalized() {
    let service = SegmentService::new(3);
    // Blocks 10, 11, 12 are all at or below min(finalized, head) = 13.
    assert!(matches!(
        service.plan_tick(&cursor(10), 20, 13),
        SegmentPlan::Compact
    ));
    // Exactly at the boundary: first + size == latest.
    assert!(matches!(
        service.plan_tick(&cursor(10), 13, 20),
        SegmentPlan::Compact
    ));
}

#[test]
fn segment_plan_waits_for_finalized_when_it_trails() {
    let service = SegmentService::new(3);
    assert!(matches!(
        service.plan_tick(&cursor(10), 20, 11),
        SegmentPlan::WaitFinalized
    ));
}

#[test]
fn segment_plan_waits_for_head_when_it_trails() {
    let service = SegmentService::new(3);
    assert!(matches!(
        service.plan_tick(&cursor(10), 11, 20),
        SegmentPlan::WaitHead
    ));
    // Equal head and finalized but not enough blocks: wait on the head.
    assert!(matches!(
        service.plan_tick(&cursor(10), 12, 12),
        SegmentPlan::WaitHead
    ));
}

#[test]
fn segment_compact_builds_in_order() {
    let service = SegmentService::new(3);
    let fetched = vec![
        (cursor(5), body(1)),
        (cursor(6), body(2)),
        (cursor(7), body(3)),
    ];
    let segment = service.compact(&cursor(5), fetched).unwrap();
    assert_eq!(segment.first_block.number, 5);
    assert_eq!(segment.last_block.number, 7);
    assert_eq!(segment.blocks.len(), 3);
    assert_eq!(segment.blocks[0].index, vec![vec![1]]);
    assert_eq!(segment.blocks[2].body, vec![vec![3, 3]]);
}

#[test]
fn segment_compact_rejects_reordered_blocks() {
    let service = SegmentService::new(3);
    // Completions out of submission order: block 7 before block 6.
    let fetched = vec![
        (cursor(5), body(1)),
        (cursor(7), body(3)),
        (cursor(6), body(2)),
    ];
    assert!(service.compact(&cursor(5), fetched).is_err());
}

#[test]
fn segment_compact_rejects_missing_block() {
    let service = SegmentService::new(3);
    // A gap: block 6 is missing.
    let fetched = vec![
        (cursor(5), body(1)),
        (cursor(7), body(3)),
        (cursor(8), body(4)),
    ];
    assert!(service.compact(&cursor(5), fetched).is_err());
}

#[test]
fn segment_compact_rejects_wrong_count() {
    let service = SegmentService::new(3);
    let fetched = vec![(cursor(5), body(1)), (cursor(6), body(2))];
    assert!(service.compact(&cursor(5), fetched).is_err());
}

#[test]
fn segment_block_fragment_check() {
    let good = Block { index: vec![vec![1], vec![2]], body: vec![vec![3], vec![4]] };
    assert!(good.check_fragments());
    let bad = Block { index: vec![vec![1]], body: vec![vec![3], vec![4]] };
    assert!(!bad.check_fragments());
}
