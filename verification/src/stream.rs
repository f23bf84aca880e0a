//! Stream identifiers and message sequence numbers.

use vstd::prelude::*;

verus! {

/// Unique id for an input stream.
#[derive(Debug, Copy, Clone, PartialEq, Eq, Structural)]
pub struct StreamId(u64);

/// Stream message sequence number.
#[derive(Debug, Copy, Clone, PartialEq, Eq, Structural)]
pub struct Sequence(u64);

impl StreamId {
    /// The id as a mathematical integer, for specifications.
    pub closed spec fn spec_as_u64(self) -> u64 {
        self.0
    }

    /// Create a `StreamId` from a `u64`.
    pub fn from_u64(id: u64) -> (r: StreamId)
        ensures
            r.spec_as_u64() == id,
    {
        StreamId(id)
    }

    /// Returns the stream id as `u64`.
    pub fn as_u64(&self) -> (r: u64)
        ensures
            r == self.spec_as_u64(),
    {
        self.0
    }

    /// Returns the stream id as bytes, big-endian.
    pub fn to_bytes(&self) -> (r: [u8; 8])
        ensures
            r@ == u64_be_bytes(self.spec_as_u64()),
    {
        let b = u64_to_be_bytes(self.0);
        b
    }
}

impl Sequence {
    /// The sequence number as a mathematical integer, for specifications.
    pub closed spec fn spec_as_u64(self) -> u64 {
        self.0
    }

    /// Create a `Sequence` from a `u64`.
    pub fn from_u64(n: u64) -> (r: Sequence)
        ensures
            r.spec_as_u64() == n,
    {
        Sequence(n)
    }

    /// Returns the sequence number as `u64`.
    pub fn as_u64(&self) -> (r: u64)
        ensures
            r == self.spec_as_u64(),
    {
        self.0
    }

    /// Returns the sequence number immediately after.
    pub fn successor(&self) -> (r: Sequence)
        requires
            self.spec_as_u64() < u64::MAX,
        ensures
            r.spec_as_u64() == self.spec_as_u64() + 1,
    {
        Sequence(self.0 + 1)
    }
}

/// A half-open range `[start, end)` of output sequence numbers.
#[derive(Debug, Copy, Clone, PartialEq, Eq, Structural)]
pub struct SequenceRange {
    start: Sequence,
    end: Sequence,
}

impl SequenceRange {
    /// The first sequence number of the range, for specifications.
    pub closed spec fn spec_start(self) -> u64 {
        self.start.spec_as_u64()
    }

    /// One past the last sequence number of the range, for specifications.
    pub closed spec fn spec_end(self) -> u64 {
        self.end.spec_as_u64()
    }

    /// Create a range from its first and one-past-last sequence numbers.
    pub fn new(start: Sequence, end: Sequence) -> (r: SequenceRange)
        requires
            start.spec_as_u64() <= end.spec_as_u64(),
        ensures
            r.spec_start() == start.spec_as_u64(),
            r.spec_end() == end.spec_as_u64(),
    {
        SequenceRange { start, end }
    }

    /// The first sequence number of the range.
    pub fn start(&self) -> (r: Sequence)
        ensures
            r.spec_as_u64() == self.spec_start(),
    {
        self.start
    }

    /// One past the last sequence number of the range.
    pub fn end(&self) -> (r: Sequence)
        ensures
            r.spec_as_u64() == self.spec_end(),
    {
        self.end
    }

    /// True when the range holds no sequence number at all.
    pub fn is_empty(&self) -> (r: bool)
        ensures
            r == (self.spec_start() == self.spec_end()),
    {
        self.start.as_u64() == self.end.as_u64()
    }
}

/// The eight big-endian bytes of a `u64`, most significant first.
pub open spec fn u64_be_bytes(n: u64) -> Seq<u8> {
    seq![
        (n >> 56) as u8,
        (n >> 48) as u8,
        (n >> 40) as u8,
        (n >> 32) as u8,
        (n >> 24) as u8,
        (n >> 16) as u8,
        (n >> 8) as u8,
        n as u8,
    ]
}

fn u64_to_be_bytes(n: u64) -> (r: [u8; 8])
    ensures
        r@ == u64_be_bytes(n),
{
    let r: [u8; 8] = [
        (n >> 56) as u8,
        (n >> 48) as u8,
        (n >> 40) as u8,
        (n >> 32) as u8,
        (n >> 24) as u8,
        (n >> 16) as u8,
        (n >> 8) as u8,
        n as u8,
    ];
    assert(r@ =~= u64_be_bytes(n));
    r
}

} // verus!
