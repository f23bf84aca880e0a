use dna_core::chain::{
    BlockInfo, BlockStatus, CanonicalChainBuilder, ChainError, Cursor, NextCursor,
};

fn block(number: u64, hash: u8, parent: u8) -> BlockInfo {
    BlockInfo {
        number,
        hash: vec![hash],
        parent: vec![parent],
        status: BlockStatus::Accepted,
        timestamp: number * 1000,
    }
}

fn chain_of(hashes: &[u8]) -> CanonicalChainBuilder {
    let mut builder = CanonicalChainBuilder::new();
    let mut parent: u8 = 255;
    for (i, h) in hashes.iter().enumerate() {
        builder.grow(block(i as u64, *h, parent)).unwrap();
        parent = *h;
    }
    builder
}

#[test]
fn chain_grow_succeeds_iff_contiguous() {
    let mut builder = CanonicalChainBuilder::new();
    assert!(builder.grow(block(0, 10, 255)).is_ok());

    // Correct parent hash and successor number.
    let good = block(1, 11, 10);
    assert!(builder.can_grow(&good));
    assert!(builder.grow(good).is_ok());

    // Wrong parent hash.
    let bad_parent = block(2, 12, 99);
    assert!(!builder.can_grow(&bad_parent));
    assert_eq!(builder.grow(bad_parent).unwrap_err(), ChainError::NonContiguous);

    // Wrong number, right parent.
    let bad_number = block(5, 12, 11);
    assert!(!builder.can_grow(&bad_number));
    assert_eq!(builder.grow(bad_number).unwrap_err(), ChainError::NonContiguous);

    // The chain is unchanged by the failures.
    assert_eq!(builder.segment_size(), 2);
    let info = builder.info().unwrap();
    assert_eq!(info.first_block.number, 0);
    assert_eq!(info.last_block.number, 1);
    assert_eq!(info.last_block.hash, vec![11]);
}

#[test]
fn chain_take_segment_links_to_current() {
    let mut builder = chain_of(&[10, 11, 12, 13, 14]);
    let taken = builder.take_segment(3).unwrap();

    let taken_info = taken.info();
    assert_eq!(taken_info.first_block.number, 0);
    assert_eq!(taken_info.last_block.number, 2);
    assert_eq!(taken_info.last_block.hash, vec![12]);

    let current = builder.current_segment().unwrap();
    let current_info = current.info();
    assert_eq!(current_info.first_block.number, 3);
    assert_eq!(current_info.last_block.number, 4);

    // The remaining chain's first block is the taken segment's child.
    let first_remaining = current.block_at(0);
    assert_eq!(first_remaining.parent, vec![12]);
    assert_eq!(first_remaining.number, taken_info.last_block.number + 1);
}

#[test]
fn chain_take_segment_rejects_bad_sizes() {
    let mut builder = chain_of(&[10, 11]);
    assert_eq!(builder.take_segment(0).unwrap_err(), ChainError::InvalidCut);
    assert_eq!(builder.take_segment(3).unwrap_err(), ChainError::InvalidCut);
    assert_eq!(builder.segment_size(), 2);
}

#[test]
fn chain_current_segment_of_empty_chain_fails() {
    let builder = CanonicalChainBuilder::new();
    assert_eq!(builder.current_segment().unwrap_err(), ChainError::EmptyChain);
}

#[test]
fn chain_restore_from_segment_round_trip() {
    let builder = chain_of(&[20, 21, 22]);
    let segment = builder.current_segment().unwrap();
    let restored = CanonicalChainBuilder::restore_from_segment(segment).unwrap();
    assert_eq!(restored.segment_size(), 3);
    let info = restored.info().unwrap();
    assert_eq!(info.first_block.number, 0);
    assert_eq!(info.last_block.number, 2);
    assert_eq!(info.last_block.hash, vec![22]);
}

#[test]
fn chain_restore_rejects_non_contiguous_segment() {
    let mut builder = chain_of(&[20, 21, 22]);
    let segment = builder.take_segment(3).unwrap();
    // Rebuild a broken segment by mixing blocks from two unrelated chains.
    let other = chain_of(&[30, 31, 32]);
    let other_segment = other.current_segment().unwrap();
    let mut mixed = CanonicalChainBuilder::new();
    mixed.grow(segment.block_at(0)).unwrap();
    let foreign = other_segment.block_at(2);
    assert!(!mixed.can_grow(&foreign));
    assert!(matches!(mixed.grow(foreign), Err(ChainError::NonContiguous)));
}

#[test]
fn chain_next_cursor_walks_the_segment() {
    let builder = chain_of(&[20, 21, 22]);
    let segment = builder.current_segment().unwrap();

    // No cursor yet: start at the first block.
    match segment.next_cursor(&None) {
        NextCursor::Continue(c) => {
            assert_eq!(c.number, 0);
            assert_eq!(c.hash, vec![20]);
        }
        _ => panic!("expected the first block"),
    }

    // In the middle: the next block.
    let mid = Cursor::new(1, vec![21]);
    match segment.next_cursor(&Some(mid)) {
        NextCursor::Continue(c) => {
            assert_eq!(c.number, 2);
            assert_eq!(c.hash, vec![22]);
        }
        _ => panic!("expected the next block"),
    }

    // At the last block: at head.
    let last = Cursor::new(2, vec![22]);
    assert!(matches!(segment.next_cursor(&Some(last)), NextCursor::AtHead));

    // A cursor with the wrong hash is not on the chain.
    let wrong = Cursor::new(1, vec![99]);
    assert!(matches!(segment.next_cursor(&Some(wrong)), NextCursor::Invalid));

    // A cursor past the segment is not on the chain.
    let past = Cursor::new(9, vec![9]);
    assert!(matches!(segment.next_cursor(&Some(past)), NextCursor::Invalid));
}

#[test]
fn chain_find_and_truncate() {
    let mut builder = chain_of(&[20, 21, 22, 23]);
    let found = builder.find_by_number(2).unwrap();
    assert_eq!(found.hash, vec![22]);
    assert!(builder.find_by_number(9).is_none());

    let dropped = builder.truncate_to(1).unwrap();
    assert_eq!(dropped, 2);
    assert_eq!(builder.segment_size(), 2);
    assert_eq!(builder.info().unwrap().last_block.number, 1);

    assert!(matches!(builder.truncate_to(7), Err(ChainError::InvalidCut)));
}

#[test]
fn chain_cursor_equality_is_by_number_and_hash() {
    let a = Cursor::new(4, vec![1, 2]);
    let b = Cursor::new(4, vec![1, 2]);
    let c = Cursor::new(4, vec![1, 3]);
    let d = Cursor::new(5, vec![1, 2]);
    assert!(a == b);
    assert!(a != c);
    assert!(a != d);
    assert!(a == a.clone());
}
