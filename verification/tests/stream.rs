use dna_core::stream::{Sequence, SequenceRange, StreamId};

#[test]
fn stream_id_round_trip() {
    let id = StreamId::from_u64(77);
    assert_eq!(id.as_u64(), 77);
}

#[test]
fn stream_id_bytes_are_big_endian() {
    let id = StreamId::from_u64(0x0102030405060708);
    assert_eq!(id.to_bytes(), [1, 2, 3, 4, 5, 6, 7, 8]);
    let small = StreamId::from_u64(5);
    assert_eq!(small.to_bytes(), [0, 0, 0, 0, 0, 0, 0, 5]);
}

#[test]
fn sequence_successor_increments() {
    let seq = Sequence::from_u64(41);
    assert_eq!(seq.as_u64(), 41);
    assert_eq!(seq.successor().as_u64(), 42);
}

#[test]
fn sequence_range_bounds_and_emptiness() {
    let range = SequenceRange::new(Sequence::from_u64(3), Sequence::from_u64(5));
    assert_eq!(range.start().as_u64(), 3);
    assert_eq!(range.end().as_u64(), 5);
    assert!(!range.is_empty());

    let empty = SequenceRange::new(Sequence::from_u64(4), Sequence::from_u64(4));
    assert!(empty.is_empty());
}
