use dna_core::sequencer::{Sequencer, SequencerError};
use dna_core::stream::{Sequence, StreamId};

#[test]
pub fn test_sequencer() {
    let mut sequencer = Sequencer::new();

    let s_a = StreamId::from_u64(0);
    let s_b = StreamId::from_u64(1);
    let s_c = StreamId::from_u64(2);

    assert_eq!(sequencer.next_output_sequence_start().unwrap().as_u64(), 0);

    let output_range = sequencer.register(&s_a, &Sequence::from_u64(0), 2).unwrap();
    assert_eq!(output_range.start().as_u64(), 0);
    assert_eq!(output_range.end().as_u64(), 2);
    assert_eq!(sequencer.next_output_sequence_start().unwrap().as_u64(), 2);
    assert_eq!(sequencer.input_sequence(&s_a).unwrap().unwrap().as_u64(), 0);
    assert!(sequencer.input_sequence(&s_b).unwrap().is_none());
    assert!(sequencer.input_sequence(&s_c).unwrap().is_none());

    let output_range = sequencer.register(&s_a, &Sequence::from_u64(1), 1).unwrap();
    assert_eq!(output_range.start().as_u64(), 2);
    assert_eq!(output_range.end().as_u64(), 3);
    assert_eq!(sequencer.next_output_sequence_start().unwrap().as_u64(), 3);
    assert_eq!(sequencer.input_sequence(&s_a).unwrap().unwrap().as_u64(), 1);
    assert!(sequencer.input_sequence(&s_b).unwrap().is_none());
    assert!(sequencer.input_sequence(&s_c).unwrap().is_none());

    let output_range = sequencer.register(&s_b, &Sequence::from_u64(0), 0).unwrap();
    assert!(output_range.is_empty());
    assert_eq!(sequencer.next_output_sequence_start().unwrap().as_u64(), 3);
    assert_eq!(sequencer.input_sequence(&s_a).unwrap().unwrap().as_u64(), 1);
    assert_eq!(sequencer.input_sequence(&s_b).unwrap().unwrap().as_u64(), 0);
    assert!(sequencer.input_sequence(&s_c).unwrap().is_none());

    let output_range = sequencer.register(&s_b, &Sequence::from_u64(1), 1).unwrap();
    assert_eq!(output_range.start().as_u64(), 3);
    assert_eq!(output_range.end().as_u64(), 4);
    assert_eq!(sequencer.next_output_sequence_start().unwrap().as_u64(), 4);
    assert_eq!(sequencer.input_sequence(&s_a).unwrap().unwrap().as_u64(), 1);
    assert_eq!(sequencer.input_sequence(&s_b).unwrap().unwrap().as_u64(), 1);
    assert!(sequencer.input_sequence(&s_c).unwrap().is_none());

    let output_range = sequencer.register(&s_a, &Sequence::from_u64(2), 3).unwrap();
    assert_eq!(output_range.start().as_u64(), 4);
    assert_eq!(output_range.end().as_u64(), 7);
    assert_eq!(sequencer.next_output_sequence_start().unwrap().as_u64(), 7);
    assert_eq!(sequencer.input_sequence(&s_a).unwrap().unwrap().as_u64(), 2);
    assert_eq!(sequencer.input_sequence(&s_b).unwrap().unwrap().as_u64(), 1);
    assert!(sequencer.input_sequence(&s_c).unwrap().is_none());

    let output_range = sequencer.register(&s_c, &Sequence::from_u64(0), 1).unwrap();
    assert_eq!(output_range.start().as_u64(), 7);
    assert_eq!(output_range.end().as_u64(), 8);
    assert_eq!(sequencer.next_output_sequence_start().unwrap().as_u64(), 8);
    assert_eq!(sequencer.input_sequence(&s_a).unwrap().unwrap().as_u64(), 2);
    assert_eq!(sequencer.input_sequence(&s_b).unwrap().unwrap().as_u64(), 1);
    assert_eq!(sequencer.input_sequence(&s_c).unwrap().unwrap().as_u64(), 0);

    let output_range = sequencer.register(&s_b, &Sequence::from_u64(2), 2).unwrap();
    assert_eq!(output_range.start().as_u64(), 8);
    assert_eq!(output_range.end().as_u64(), 10);
    assert_eq!(sequencer.next_output_sequence_start().unwrap().as_u64(), 10);
    assert_eq!(sequencer.input_sequence(&s_a).unwrap().unwrap().as_u64(), 2);
    assert_eq!(sequencer.input_sequence(&s_b).unwrap().unwrap().as_u64(), 2);
    assert_eq!(sequencer.input_sequence(&s_c).unwrap().unwrap().as_u64(), 0);

    let invalidated_sequence = sequencer.invalidate(&s_b, &Sequence::from_u64(1)).unwrap();
    assert_eq!(invalidated_sequence.as_u64(), 3);
    assert_eq!(sequencer.next_output_sequence_start().unwrap().as_u64(), 3);
    assert_eq!(sequencer.input_sequence(&s_a).unwrap().unwrap().as_u64(), 1);
    assert_eq!(sequencer.input_sequence(&s_b).unwrap().unwrap().as_u64(), 0);
    assert!(sequencer.input_sequence(&s_c).unwrap().is_none());

    let output_range = sequencer.register(&s_b, &Sequence::from_u64(1), 1).unwrap();
    assert_eq!(output_range.start().as_u64(), 3);
    assert_eq!(output_range.end().as_u64(), 4);
    assert_eq!(sequencer.next_output_sequence_start().unwrap().as_u64(), 4);
    assert_eq!(sequencer.input_sequence(&s_a).unwrap().unwrap().as_u64(), 1);
    assert_eq!(sequencer.input_sequence(&s_b).unwrap().unwrap().as_u64(), 1);
    assert!(sequencer.input_sequence(&s_c).unwrap().is_none());
}

#[test]
fn sequencer_rejects_out_of_order_input() {
    let mut sequencer = Sequencer::new();
    let s = StreamId::from_u64(7);
    sequencer.register(&s, &Sequence::from_u64(0), 1).unwrap();
    let err = sequencer.register(&s, &Sequence::from_u64(2), 1).unwrap_err();
    assert_eq!(err, SequencerError::InvalidInputSequence { expected: 1, actual: 2 });
}

#[test]
fn sequencer_rejects_nonzero_first_input() {
    let mut sequencer = Sequencer::new();
    let s = StreamId::from_u64(0);
    let err = sequencer.register(&s, &Sequence::from_u64(3), 1).unwrap_err();
    assert_eq!(err, SequencerError::InvalidInputSequence { expected: 0, actual: 3 });
}

#[test]
fn sequencer_invalidate_unknown_stream() {
    let mut sequencer = Sequencer::new();
    let s = StreamId::from_u64(0);
    let other = StreamId::from_u64(9);
    sequencer.register(&s, &Sequence::from_u64(0), 1).unwrap();
    let err = sequencer.invalidate(&other, &Sequence::from_u64(0)).unwrap_err();
    assert_eq!(err, SequencerError::InputSequenceNotFound);
}

#[test]
fn sequencer_invalidate_past_last_input() {
    let mut sequencer = Sequencer::new();
    let s = StreamId::from_u64(0);
    sequencer.register(&s, &Sequence::from_u64(0), 1).unwrap();
    sequencer.register(&s, &Sequence::from_u64(1), 2).unwrap();
    let err = sequencer.invalidate(&s, &Sequence::from_u64(5)).unwrap_err();
    assert_eq!(err, SequencerError::InvalidInvalidateSequence { current: 1, actual: 5 });
}

#[test]
fn sequencer_register_then_invalidate_round_trip() {
    let mut sequencer = Sequencer::new();
    let s_a = StreamId::from_u64(0);
    let s_b = StreamId::from_u64(1);
    sequencer.register(&s_a, &Sequence::from_u64(0), 2).unwrap();
    sequencer.register(&s_b, &Sequence::from_u64(0), 1).unwrap();

    let range = sequencer.register(&s_a, &Sequence::from_u64(1), 4).unwrap();
    assert_eq!(range.start().as_u64(), 3);
    let first_invalidated = sequencer.invalidate(&s_a, &Sequence::from_u64(1)).unwrap();

    assert_eq!(first_invalidated.as_u64(), 3);
    assert_eq!(sequencer.next_output_sequence_start().unwrap().as_u64(), 3);
    assert_eq!(sequencer.input_sequence(&s_a).unwrap().unwrap().as_u64(), 0);
    assert_eq!(sequencer.input_sequence(&s_b).unwrap().unwrap().as_u64(), 0);
}

#[test]
fn sequencer_empty_range_before_invalidation_point_is_preserved() {
    let mut sequencer = Sequencer::new();
    let s_a = StreamId::from_u64(0);
    let s_b = StreamId::from_u64(1);
    sequencer.register(&s_a, &Sequence::from_u64(0), 3).unwrap();
    // An input that produced no outputs: its range is empty at position 3.
    sequencer.register(&s_b, &Sequence::from_u64(0), 0).unwrap();
    sequencer.register(&s_a, &Sequence::from_u64(1), 2).unwrap();

    // Invalidating the input right after the empty range deletes the later
    // outputs but keeps the empty range, since it sits immediately before
    // the invalidation point.
    let first_invalidated = sequencer.invalidate(&s_a, &Sequence::from_u64(1)).unwrap();
    assert_eq!(first_invalidated.as_u64(), 3);
    assert_eq!(sequencer.next_output_sequence_start().unwrap().as_u64(), 3);
    assert_eq!(sequencer.input_sequence(&s_b).unwrap().unwrap().as_u64(), 0);
}

#[test]
fn sequencer_invalidating_empty_input_keeps_it() {
    let mut sequencer = Sequencer::new();
    let s = StreamId::from_u64(0);
    sequencer.register(&s, &Sequence::from_u64(0), 3).unwrap();
    sequencer.register(&s, &Sequence::from_u64(1), 0).unwrap();

    // The invalidated input's own range is empty and ends exactly at the
    // invalidation point, so it survives: only later outputs would go.
    let first_invalidated = sequencer.invalidate(&s, &Sequence::from_u64(1)).unwrap();
    assert_eq!(first_invalidated.as_u64(), 3);
    assert_eq!(sequencer.input_sequence(&s).unwrap().unwrap().as_u64(), 1);
    assert_eq!(sequencer.next_output_sequence_start().unwrap().as_u64(), 3);
}

#[test]
fn sequencer_output_ranges_partition_the_axis() {
    let mut sequencer = Sequencer::new();
    let s_a = StreamId::from_u64(0);
    let s_b = StreamId::from_u64(1);

    let mut ranges: Vec<(u64, u64)> = Vec::new();
    ranges.push({
        let r = sequencer.register(&s_a, &Sequence::from_u64(0), 2).unwrap();
        (r.start().as_u64(), r.end().as_u64())
    });
    ranges.push({
        let r = sequencer.register(&s_b, &Sequence::from_u64(0), 0).unwrap();
        (r.start().as_u64(), r.end().as_u64())
    });
    ranges.push({
        let r = sequencer.register(&s_b, &Sequence::from_u64(1), 3).unwrap();
        (r.start().as_u64(), r.end().as_u64())
    });
    ranges.push({
        let r = sequencer.register(&s_a, &Sequence::from_u64(1), 1).unwrap();
        (r.start().as_u64(), r.end().as_u64())
    });

    let next = sequencer.next_output_sequence_start().unwrap().as_u64();
    assert_eq!(next, 6);

    // The ranges are pairwise disjoint.
    for (i, a) in ranges.iter().enumerate() {
        for (j, b) in ranges.iter().enumerate() {
            if i != j {
                assert!(a.1 <= b.0 || b.1 <= a.0);
            }
        }
    }
    // Together they cover every output position below the next start.
    for p in 0..next {
        assert!(ranges.iter().any(|r| r.0 <= p && p < r.1));
    }
    // The next start is the largest range end.
    assert_eq!(ranges.iter().map(|r| r.1).max().unwrap(), next);
}
