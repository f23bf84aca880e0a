//! The sequencer tracks input sequence numbers from multiple sources and
//! associates them with ranges on a single monotonic output sequence.
//!
//! Every registered input `(stream_id, input_seq)` receives a contiguous
//! half-open range `[out_start, out_end)` of output sequence numbers, where
//! `out_end - out_start` is the number of outputs produced by that input
//! (zero is allowed). Registrations are kept in order, so the ranges chain:
//! each row starts exactly where the previous one ended. Invalidating an
//! input removes it together with every input, on any stream, that was
//! sequenced after it on the output axis.

use vstd::prelude::*;

use crate::stream::{Sequence, SequenceRange, StreamId};

verus! {

/// One registered input: its stream, its per-stream sequence number, and the
/// half-open output range `[out_start, out_end)` assigned to it.
#[derive(Debug, Copy, Clone, PartialEq, Eq, Structural)]
pub struct Row {
    pub stream_id: u64,
    pub input_seq: u64,
    pub out_start: u64,
    pub out_end: u64,
}

/// Errors returned by the sequencer.
#[derive(Debug, Copy, Clone, PartialEq, Eq, Structural)]
pub enum SequencerError {
    /// The registered input is not the successor of the stream's last input.
    InvalidInputSequence { expected: u64, actual: u64 },
    /// The input to invalidate was never registered.
    InputSequenceNotFound,
    /// The input to invalidate is past the stream's last registered input.
    InvalidInvalidateSequence { current: u64, actual: u64 },
}

/// Number of rows among `log[0..upto]` that belong to stream `sid`.
pub open spec fn row_count(log: Seq<Row>, sid: u64, upto: int) -> nat
    decreases upto,
{
    if upto <= 0 {
        0
    } else {
        row_count(log, sid, upto - 1) + (if log[upto - 1].stream_id == sid {
            1nat
        } else {
            0nat
        })
    }
}

/// Number of rows of stream `sid` in the whole log. The next input the
/// stream may register is exactly this number.
pub open spec fn stream_count(log: Seq<Row>, sid: u64) -> nat {
    row_count(log, sid, log.len() as int)
}

/// Where the output range of row `i` must start: at the end of the previous
/// row, or at zero for the first row.
pub open spec fn prev_end(log: Seq<Row>, i: int) -> u64 {
    if i == 0 {
        0u64
    } else {
        log[i - 1].out_end
    }
}

/// The first output sequence number not yet assigned.
pub open spec fn next_output(log: Seq<Row>) -> u64 {
    if log.len() == 0 {
        0u64
    } else {
        log.last().out_end
    }
}

/// Well-formedness of the registration log: output ranges chain without
/// gaps from zero, and each row's input sequence number counts the rows of
/// the same stream registered before it.
pub open spec fn wf_log(log: Seq<Row>) -> bool {
    forall|i: int|
        0 <= i < log.len() ==> {
            &&& (#[trigger] log[i]).out_start == prev_end(log, i)
            &&& log[i].out_start <= log[i].out_end
            &&& log[i].input_seq == row_count(log, log[i].stream_id, i)
        }
}

/// The log after registering `n` outputs for the next input of stream
/// `sid`.
pub open spec fn spec_register(log: Seq<Row>, sid: u64, n: u64) -> Seq<Row> {
    log.push(
        Row {
            stream_id: sid,
            input_seq: stream_count(log, sid) as u64,
            out_start: next_output(log),
            out_end: (next_output(log) + n) as u64,
        },
    )
}

/// How many rows survive an invalidation whose first invalidated output is
/// `target`: the longest prefix of the log whose rows all end at or before
/// `target`.
pub open spec fn surviving_len(log: Seq<Row>, target: u64) -> int
    decreases log.len(),
{
    if log.len() == 0 {
        0
    } else if log.last().out_end <= target {
        log.len() as int
    } else {
        surviving_len(log.drop_last(), target)
    }
}

/// Position in the log of the row of stream `sid` with input sequence
/// `iseq`, searching from the back; `-1` if there is none.
pub open spec fn row_position(log: Seq<Row>, sid: u64, iseq: u64) -> int
    decreases log.len(),
{
    if log.len() == 0 {
        -1
    } else if log.last().stream_id == sid && log.last().input_seq == iseq {
        log.len() - 1
    } else {
        row_position(log.drop_last(), sid, iseq)
    }
}

/// The log after invalidating input `(sid, iseq)`: only rows whose output
/// range ends at or before the invalidated row's start survive.
pub open spec fn spec_invalidate(log: Seq<Row>, sid: u64, iseq: u64) -> Seq<Row> {
    log.take(surviving_len(log, log[row_position(log, sid, iseq)].out_start))
}

/// `row_count` looks only at rows before `upto`, so two logs that agree on
/// that prefix count alike.
proof fn lemma_row_count_agrees(l1: Seq<Row>, l2: Seq<Row>, sid: u64, upto: int)
    requires
        0 <= upto <= l1.len(),
        upto <= l2.len(),
        forall|j: int| 0 <= j < upto ==> l1[j] == l2[j],
    ensures
        row_count(l1, sid, upto) == row_count(l2, sid, upto),
    decreases upto,
{
    if upto > 0 {
        lemma_row_count_agrees(l1, l2, sid, upto - 1);
    }
}

/// A well-formed log stays well formed when truncated to a prefix.
proof fn lemma_wf_take(log: Seq<Row>, k: int)
    requires
        wf_log(log),
        0 <= k <= log.len(),
    ensures
        wf_log(log.take(k)),
{
    let pre = log.take(k);
    assert forall|i: int| 0 <= i < pre.len() implies {
        &&& (#[trigger] pre[i]).out_start == prev_end(pre, i)
        &&& pre[i].out_start <= pre[i].out_end
        &&& pre[i].input_seq == row_count(pre, pre[i].stream_id, i)
    } by {
        assert(pre[i] == log[i]);
        lemma_row_count_agrees(pre, log, pre[i].stream_id, i);
    }
}

/// In a well-formed log the range ends never decrease along the log.
proof fn lemma_ends_monotone(log: Seq<Row>, i: int, j: int)
    requires
        wf_log(log),
        0 <= i <= j < log.len(),
    ensures
        log[i].out_end <= log[j].out_end,
    decreases j - i,
{
    if i < j {
        lemma_ends_monotone(log, i, j - 1);
        assert(log[j].out_start == prev_end(log, j));
    }
}

/// The number of surviving rows is never more than the log's length.
proof fn lemma_surviving_len_bounds(log: Seq<Row>, target: u64)
    ensures
        0 <= surviving_len(log, target) <= log.len(),
    decreases log.len(),
{
    if log.len() > 0 && log.last().out_end > target {
        lemma_surviving_len_bounds(log.drop_last(), target);
    }
}

/// `row_count` never decreases as more of the log is counted.
proof fn lemma_row_count_mono(log: Seq<Row>, sid: u64, a: int, b: int)
    requires
        0 <= a <= b <= log.len(),
    ensures
        row_count(log, sid, a) <= row_count(log, sid, b),
    decreases b - a,
{
    if a < b {
        lemma_row_count_mono(log, sid, a, b - 1);
    }
}

/// In a well-formed log, every input sequence number below the stream's
/// count is present, the back-search finds it, and nothing behind the found
/// position matches it.
#[verifier::rlimit(50)]
proof fn lemma_row_position_finds(log: Seq<Row>, sid: u64, k: u64)
    requires
        wf_log(log),
        k < stream_count(log, sid),
    ensures
        ({
            let p = row_position(log, sid, k);
            &&& 0 <= p < log.len()
            &&& log[p].stream_id == sid
            &&& log[p].input_seq == k
            &&& forall|j: int|
                p < j < log.len() ==> !((#[trigger] log[j]).stream_id == sid && log[j].input_seq
                    == k)
        }),
    decreases log.len(),
{
    let len = log.len() as int;
    let last = log.last();
    let rest = log.drop_last();
    assert(rest =~= log.take(len - 1));
    lemma_wf_take(log, len - 1);
    lemma_row_count_agrees(rest, log, sid, len - 1);
    assert(stream_count(log, sid) == stream_count(rest, sid) + (if last.stream_id == sid {
        1nat
    } else {
        0nat
    }));
    if last.stream_id == sid && last.input_seq == k {
        assert(row_position(log, sid, k) == len - 1);
    } else {
        if last.stream_id == sid {
            assert(last.input_seq == row_count(log, sid, len - 1));
            assert(k < stream_count(rest, sid));
        }
        lemma_row_position_finds(rest, sid, k);
        let p = row_position(rest, sid, k);
        assert(row_position(log, sid, k) == p);
        assert(log[p] == rest[p]);
        assert forall|j: int|
            p < j < log.len() implies !((#[trigger] log[j]).stream_id == sid && log[j].input_seq
            == k) by {
            if j < len - 1 {
                assert(log[j] == rest[j]);
            }
        }
    }
}

/// Maps each input `(stream_id, input_seq)` seen so far to a range on the
/// single output sequence, and supports consistent invalidation.
pub struct Sequencer {
    rows: Vec<Row>,
}

impl View for Sequencer {
    type V = Seq<Row>;

    closed spec fn view(&self) -> Seq<Row> {
        self.rows@
    }
}

impl Sequencer {
    /// The sequencer's invariant: its registration log is well formed.
    pub open spec fn well_formed(self) -> bool {
        wf_log(self@)
    }

    /// Create a new, empty sequencer.
    pub fn new() -> (s: Sequencer)
        ensures
            s@ == Seq::<Row>::empty(),
            s.well_formed(),
    {
        let s = Sequencer { rows: Vec::new() };
        assert(s@ =~= Seq::<Row>::empty());
        s
    }

    /// Number of rows registered for the given stream; the next input
    /// sequence number the stream is allowed to register.
    fn stream_row_count(&self, sid: u64) -> (n: u64)
        ensures
            n == stream_count(self@, sid),
    {
        let mut i: usize = 0;
        let mut n: u64 = 0;
        while i < self.rows.len()
            invariant
                0 <= i <= self.rows.len(),
                n == row_count(self@, sid, i as int),
                n <= i,
            decreases self.rows.len() - i,
        {
            if self.rows[i].stream_id == sid {
                n = n + 1;
            }
            i = i + 1;
        }
        n
    }

    /// Register a new input message `(stream_id, sequence)` that generates
    /// `output_len` output messages.
    ///
    /// The stream's inputs must arrive in order: the first registered input
    /// of a stream is `0`, and each later one is the successor of the
    /// stream's last. On success the input receives the half-open output
    /// range `[next_output, next_output + output_len)`; if `output_len == 0`
    /// the range is empty.
    pub fn register(
        &mut self,
        stream_id: &StreamId,
        sequence: &Sequence,
        output_len: usize,
    ) -> (r: Result<SequenceRange, SequencerError>)
        requires
            old(self).well_formed(),
            next_output(old(self)@) + output_len <= u64::MAX,
        ensures
            final(self).well_formed(),
            ({
                let sid = stream_id.spec_as_u64();
                let count = stream_count(old(self)@, sid);
                match r {
                    Ok(range) => {
                        &&& sequence.spec_as_u64() == count
                        &&& range.spec_start() == next_output(old(self)@)
                        &&& range.spec_end() == next_output(old(self)@) + output_len
                        &&& final(self)@ == spec_register(old(self)@, sid, output_len as u64)
                    },
                    Err(SequencerError::InvalidInputSequence { expected, actual }) => {
                        &&& sequence.spec_as_u64() != count
                        &&& expected == count
                        &&& actual == sequence.spec_as_u64()
                        &&& final(self)@ == old(self)@
                    },
                    Err(_) => false,
                }
            }),
    {
        let sid: u64 = stream_id.as_u64();
        let seq: u64 = sequence.as_u64();
        let count: u64 = self.stream_row_count(sid);

        if seq != count {
            return Err(SequencerError::InvalidInputSequence { expected: count, actual: seq });
        }

        let out_start: u64 = if self.rows.len() == 0 {
            0
        } else {
            self.rows[self.rows.len() - 1].out_end
        };
        let out_end: u64 = out_start + output_len as u64;

        let row = Row { stream_id: sid, input_seq: seq, out_start, out_end };
        let ghost old_log = self@;
        self.rows.push(row);

        proof {
            let log = self@;
            assert(log == spec_register(old_log, sid, output_len as u64));
            assert forall|i: int| 0 <= i < log.len() implies {
                &&& (#[trigger] log[i]).out_start == prev_end(log, i)
                &&& log[i].out_start <= log[i].out_end
                &&& log[i].input_seq == row_count(log, log[i].stream_id, i)
            } by {
                lemma_row_count_agrees(log, old_log, log[i].stream_id, i);
                if i < old_log.len() {
                    assert(old_log[i].out_start == prev_end(old_log, i));
                }
            }
        }

        Ok(SequenceRange::new(Sequence::from_u64(out_start), Sequence::from_u64(out_end)))
    }

    /// Invalidates all messages received after (inclusive) `(stream_id,
    /// sequence)`.
    ///
    /// Every row, on any stream, whose output range ends after the
    /// invalidated row's start is removed; a row whose range ends at or
    /// before it survives, so an empty range sitting immediately before the
    /// invalidation point is preserved. Returns the sequence number of the
    /// first invalidated output message.
    pub fn invalidate(&mut self, stream_id: &StreamId, sequence: &Sequence) -> (r: Result<
        Sequence,
        SequencerError,
    >)
        requires
            old(self).well_formed(),
        ensures
            final(self).well_formed(),
            ({
                let sid = stream_id.spec_as_u64();
                let iseq = sequence.spec_as_u64();
                let count = stream_count(old(self)@, sid);
                match r {
                    Ok(first_invalidated) => {
                        &&& count > 0
                        &&& iseq < count
                        &&& first_invalidated.spec_as_u64() == old(self)@[row_position(
                            old(self)@,
                            sid,
                            iseq,
                        )].out_start
                        &&& final(self)@ == spec_invalidate(old(self)@, sid, iseq)
                    },
                    Err(SequencerError::InputSequenceNotFound) => {
                        &&& count == 0
                        &&& final(self)@ == old(self)@
                    },
                    Err(SequencerError::InvalidInvalidateSequence { current, actual }) => {
                        &&& count > 0
                        &&& iseq >= count
                        &&& current == count - 1
                        &&& actual == iseq
                        &&& final(self)@ == old(self)@
                    },
                    Err(_) => false,
                }
            }),
    {
        let sid: u64 = stream_id.as_u64();
        let iseq: u64 = sequence.as_u64();
        let count: u64 = self.stream_row_count(sid);

        if count == 0 {
            return Err(SequencerError::InputSequenceNotFound);
        }
        if iseq >= count {
            return Err(
                SequencerError::InvalidInvalidateSequence { current: count - 1, actual: iseq },
            );
        }

        proof {
            lemma_row_position_finds(self@, sid, iseq);
        }
        let ghost old_log = self@;
        let ghost pos = row_position(old_log, sid, iseq);

        // Walk backward to the invalidated row; nothing behind `pos`
        // matches, so the scan stops exactly there.
        let mut i: usize = self.rows.len();
        while !(self.rows[i - 1].stream_id == sid && self.rows[i - 1].input_seq == iseq)
            invariant
                self@ == old_log,
                pos < i <= self.rows.len(),
                0 <= pos,
                old_log[pos].stream_id == sid,
                old_log[pos].input_seq == iseq,
                forall|j: int|
                    pos < j < old_log.len() ==> !((#[trigger] old_log[j]).stream_id == sid
                        && old_log[j].input_seq == iseq),
            decreases i,
        {
            i = i - 1;
        }
        assert(i - 1 == pos);
        let target: u64 = self.rows[i - 1].out_start;

        // Delete every row whose output range ends after `target`.
        while self.rows.len() > 0 && self.rows[self.rows.len() - 1].out_end > target
            invariant
                self@.len() <= old_log.len(),
                self@ =~= old_log.take(self@.len() as int),
                surviving_len(old_log, target) == surviving_len(self@, target),
            decreases self.rows.len(),
        {
            let ghost before = self@;
            self.rows.pop();
            proof {
                let k = before.len() as int;
                assert(self@ =~= before.drop_last());
                assert(surviving_len(before, target) == surviving_len(before.drop_last(), target));
                assert(before == old_log.take(k));
                assert forall|j: int| 0 <= j < k - 1 implies before.drop_last()[j] == old_log[j] by {
                    assert(before[j] == old_log.take(k)[j]);
                }
                assert(before.drop_last() =~= old_log.take(k - 1));
            }
        }

        proof {
            assert(surviving_len(self@, target) == self@.len());
            lemma_surviving_len_bounds(old_log, target);
            assert(self@ =~= spec_invalidate(old_log, sid, iseq));
            lemma_wf_take(old_log, surviving_len(old_log, target));
        }

        Ok(Sequence::from_u64(target))
    }

    /// Returns the start sequence of the next output message.
    pub fn next_output_sequence_start(&self) -> (r: Result<Sequence, SequencerError>)
        ensures
            r is Ok,
            r->Ok_0.spec_as_u64() == next_output(self@),
    {
        if self.rows.len() == 0 {
            Ok(Sequence::from_u64(0))
        } else {
            Ok(Sequence::from_u64(self.rows[self.rows.len() - 1].out_end))
        }
    }

    /// Returns the latest registered sequence of the given input stream, or
    /// `None` if the stream has registered nothing.
    pub fn input_sequence(&self, stream_id: &StreamId) -> (r: Result<
        Option<Sequence>,
        SequencerError,
    >)
        requires
            self.well_formed(),
        ensures
            r is Ok,
            ({
                let count = stream_count(self@, stream_id.spec_as_u64());
                match r->Ok_0 {
                    Some(s) => count > 0 && s.spec_as_u64() == count - 1,
                    None => count == 0,
                }
            }),
    {
        let sid: u64 = stream_id.as_u64();
        let count: u64 = self.stream_row_count(sid);
        if count == 0 {
            Ok(None)
        } else {
            Ok(Some(Sequence::from_u64(count - 1)))
        }
    }
}

/// Some row's output range covers the output position `p`.
pub open spec fn covers(log: Seq<Row>, p: int) -> bool {
    exists|i: int| 0 <= i < log.len() && (#[trigger] log[i]).out_start <= p < log[i].out_end
}

proof fn lemma_covers(log: Seq<Row>, p: int)
    requires
        wf_log(log),
        0 <= p < next_output(log),
    ensures
        covers(log, p),
    decreases log.len(),
{
    let len = log.len() as int;
    let last = log.last();
    if last.out_start <= p {
        assert(0 <= len - 1 < len && log[len - 1].out_start <= p < log[len - 1].out_end);
    } else {
        let rest = log.drop_last();
        assert(rest =~= log.take(len - 1));
        lemma_wf_take(log, len - 1);
        assert(last.out_start == prev_end(log, len - 1));
        lemma_covers(rest, p);
        let i = choose|i: int|
            0 <= i < rest.len() && (#[trigger] rest[i]).out_start <= p < rest[i].out_end;
        assert(log[i].out_start <= p < log[i].out_end);
    }
}

/// The output ranges of a well-formed log are pairwise disjoint and
/// together cover `[0, next_output)` without gaps.
pub proof fn lemma_output_ranges_partition(log: Seq<Row>)
    requires
        wf_log(log),
    ensures
        forall|i: int, j: int|
            #![trigger log[i], log[j]]
            0 <= i < log.len() && 0 <= j < log.len() && i != j ==> log[i].out_end
                <= log[j].out_start || log[j].out_end <= log[i].out_start,
        forall|p: int| 0 <= p < next_output(log) ==> #[trigger] covers(log, p),
{
    assert forall|i: int, j: int|
        #![trigger log[i], log[j]]
        0 <= i < log.len() && 0 <= j < log.len() && i != j implies log[i].out_end
        <= log[j].out_start || log[j].out_end <= log[i].out_start by {
        if i < j {
            lemma_ends_monotone(log, i, j - 1);
            assert(log[j].out_start == prev_end(log, j));
        } else {
            lemma_ends_monotone(log, j, i - 1);
            assert(log[i].out_start == prev_end(log, i));
        }
    }
    assert forall|p: int| 0 <= p < next_output(log) implies #[trigger] covers(log, p) by {
        lemma_covers(log, p);
    }
}

/// The start of the next output range equals the largest range end over all
/// rows of a well-formed log.
pub proof fn lemma_next_output_start_is_max_end(log: Seq<Row>)
    requires
        wf_log(log),
    ensures
        forall|i: int| 0 <= i < log.len() ==> (#[trigger] log[i]).out_end <= next_output(log),
        log.len() > 0 ==> log[log.len() - 1].out_end == next_output(log),
{
    assert forall|i: int| 0 <= i < log.len() implies (#[trigger] log[i]).out_end <= next_output(
        log,
    ) by {
        lemma_ends_monotone(log, i, log.len() - 1);
    }
}

/// For every stream of a well-formed log, the input sequence numbers
/// present are exactly the prefix `{0, ..., stream_count - 1}`.
pub proof fn lemma_input_sequences_form_prefix(log: Seq<Row>, sid: u64)
    requires
        wf_log(log),
    ensures
        forall|i: int|
            0 <= i < log.len() && (#[trigger] log[i]).stream_id == sid ==> log[i].input_seq
                < stream_count(log, sid),
        forall|k: u64|
            k < stream_count(log, sid) ==> {
                let p = #[trigger] row_position(log, sid, k);
                &&& 0 <= p < log.len()
                &&& log[p].stream_id == sid
                &&& log[p].input_seq == k
            },
{
    assert forall|i: int|
        0 <= i < log.len() && (#[trigger] log[i]).stream_id == sid implies log[i].input_seq
        < stream_count(log, sid) by {
        assert(row_count(log, sid, i + 1) == row_count(log, sid, i) + 1);
        lemma_row_count_mono(log, sid, i + 1, log.len() as int);
    }
    assert forall|k: u64| k < stream_count(log, sid) implies {
        let p = #[trigger] row_position(log, sid, k);
        &&& 0 <= p < log.len()
        &&& log[p].stream_id == sid
        &&& log[p].input_seq == k
    } by {
        lemma_row_position_finds(log, sid, k);
    }
}

/// Registering an input and immediately invalidating it restores the
/// sequencer to the state before the registration, provided the input
/// produced at least one output. (An input that produced none is an empty
/// range immediately before the invalidation point, which an invalidation
/// preserves.)
pub proof fn lemma_register_then_invalidate_restores(log: Seq<Row>, sid: u64, n: u64)
    requires
        wf_log(log),
        1 <= n,
        next_output(log) + n <= u64::MAX,
    ensures
        spec_invalidate(spec_register(log, sid, n), sid, stream_count(log, sid) as u64) == log,
{
    let k = stream_count(log, sid) as u64;
    let log2 = spec_register(log, sid, n);
    let target = next_output(log);
    assert(log2.last().stream_id == sid && log2.last().input_seq == k);
    assert(row_position(log2, sid, k) == log.len() as int);
    assert(log2[log.len() as int].out_start == target);
    assert(log2.last().out_end == target + n > target);
    assert(log2.drop_last() =~= log);
    assert(surviving_len(log2, target) == surviving_len(log, target));
    if log.len() > 0 {
        assert(log.last().out_end <= target);
    }
    assert(surviving_len(log, target) == log.len());
    assert(log2.take(log.len() as int) =~= log);
}

} // verus!
