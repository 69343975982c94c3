use vstd::prelude::*;

use crate::errors::StreamParserError;

verus! {

/// Outcome of one invocation of a caller-supplied grammar parser on a byte
/// window. The parser is an opaque collaborator: the engine only relies on
/// the shape of this verdict.
#[derive(Clone, Debug, PartialEq, Eq)]
pub enum ParseVerdict<O> {
    /// A record was produced from the first `consumed` bytes of the window.
    Parsed { consumed: usize, value: O },
    /// The window may be a strict prefix of a record: more bytes are needed
    /// before a decision can be taken.
    Incomplete,
    /// No record can start at the head of this window.
    Failed,
}

/// Outcome of one invocation of a caller-supplied start-of-group matcher,
/// run on a window that begins at a candidate start marker.
#[derive(Clone, Copy, Debug, PartialEq, Eq, Structural)]
pub enum MatchVerdict {
    /// The window begins with a plausible start of record once `consumed`
    /// leading bytes are skipped.
    Matched { consumed: usize },
    /// The window may still become a match once more bytes arrive.
    Incomplete,
    /// The window does not begin with a plausible start of record.
    NoMatch,
}

/// What the engine demands of every grammar parser: it must accept any
/// window, and a produced record may not claim more bytes than the window
/// holds.
pub open spec fn parser_wf<O, P: Fn(&[u8]) -> ParseVerdict<O>>(p: P) -> bool {
    &&& forall|s: &[u8]| #[trigger] call_requires(p, (s,))
    &&& forall|s: &[u8], v: ParseVerdict<O>| #[trigger] call_ensures(p, (s,), v) ==> (v matches
        ParseVerdict::Parsed { consumed, .. } ==> consumed <= s@.len())
}

/// What the boundary heuristic demands of a start-of-group matcher: it must
/// accept any window, and a match may not consume more bytes than the window
/// holds.
pub open spec fn matcher_wf<F: Fn(&[u8]) -> MatchVerdict>(f: F) -> bool {
    &&& forall|s: &[u8]| #[trigger] call_requires(f, (s,))
    &&& forall|s: &[u8], v: MatchVerdict| #[trigger] call_ensures(f, (s,), v) ==> (v matches
        MatchVerdict::Matched { consumed } ==> consumed <= s@.len())
}

/// The parser `p`, run on a window holding exactly the bytes `input`, can
/// answer with the verdict `v`.
pub open spec fn parser_admits<O, P: Fn(&[u8]) -> ParseVerdict<O>>(
    p: P,
    input: Seq<u8>,
    v: ParseVerdict<O>,
) -> bool {
    exists|s: &[u8]| s@ == input && call_ensures(p, (s,), v)
}

/// The matcher `f`, run on a window holding exactly the bytes `input`, can
/// answer with the verdict `v`.
pub open spec fn matcher_admits<F: Fn(&[u8]) -> MatchVerdict>(
    f: F,
    input: Seq<u8>,
    v: MatchVerdict,
) -> bool {
    exists|s: &[u8]| s@ == input && call_ensures(f, (s,), v)
}

/// Exact effect of appending `other` to a buffer currently holding `cur`:
/// the result of the call, paired with the contents afterwards.
///
/// A growable buffer always extends. A bounded buffer extends when the bytes
/// fit in the free space; otherwise, with `ev = Some(k)`, `k > 0`, the first
/// `k` bytes (already consumed by the reader) are evicted first, provided
/// that this frees enough room. In every failing case the contents are left
/// untouched: no partial write occurs.
pub open spec fn append_effect(
    fixed: bool,
    cap: usize,
    cur: Seq<u8>,
    other: Seq<u8>,
    ev: Option<usize>,
) -> (Result<bool, StreamParserError>, Seq<u8>) {
    if !fixed {
        (Ok(false), cur + other)
    } else if other.len() <= cap - cur.len() {
        (Ok(false), cur + other)
    } else {
        let refused = Err(StreamParserError::ExceededBuffer {
            buffer_size: cap,
            data_size: other.len() as usize,
        });
        match ev {
            Option::None => (refused, cur),
            Option::Some(k) => if k == 0 {
                (refused, cur)
            } else if other.len() <= cap - (cur.len() - k) {
                (Ok(true), cur.skip(k as int) + other)
            } else {
                (refused, cur)
            },
        }
    }
}

/// Law: appending data that exceeds the free space of a bounded buffer,
/// with an eviction allowance `Some(k)` that frees enough room, succeeds
/// with `evicted = true` and yields the old contents without their first
/// `k` bytes, followed by the new data.
pub proof fn lemma_eviction_correctness(cap: usize, cur: Seq<u8>, other: Seq<u8>, k: usize)
    requires
        cur.len() <= cap,
        other.len() > cap - cur.len(),
        0 < k <= cur.len(),
        other.len() <= cap - (cur.len() - k),
    ensures
        append_effect(true, cap, cur, other, Some(k)) == (
            Result::<bool, StreamParserError>::Ok(true),
            cur.skip(k as int) + other,
        ),
{
}

/// Law: appending data that exceeds the free space of a bounded buffer with
/// no eviction allowance (`None` or `Some(0)`) always fails with
/// `ExceededBuffer`, and never writes partially: the contents are unchanged.
pub proof fn lemma_overflow_fatality(cap: usize, cur: Seq<u8>, other: Seq<u8>, ev: Option<usize>)
    requires
        cur.len() <= cap,
        other.len() > cap - cur.len(),
        ev is None || ev == Some(0usize),
    ensures
        append_effect(true, cap, cur, other, ev) == (
            Result::<bool, StreamParserError>::Err(
                StreamParserError::ExceededBuffer {
                    buffer_size: cap,
                    data_size: other.len() as usize,
                },
            ),
            cur,
        ),
{
}

/// Behaviour expected of a scratch buffer used while parsing a stream.
///
/// `contents()` is the readable window; a bounded buffer (`is_fixed()`)
/// never lets it grow beyond `capacity()`.
pub trait Buffer: Sized {
    /// The bytes currently readable, oldest first.
    spec fn contents(&self) -> Seq<u8>;

    /// Whether this buffer has a fixed physical capacity.
    spec fn is_fixed(&self) -> bool;

    /// The physical capacity of a bounded buffer (unused when growable).
    spec fn capacity(&self) -> usize;

    /// Internal well-formedness.
    spec fn inv(&self) -> bool;

    /// The readable window always fits machine limits, and a bounded buffer
    /// never holds more than its capacity.
    proof fn lemma_inv(&self)
        requires
            self.inv(),
        ensures
            self.contents().len() <= usize::MAX,
            self.is_fixed() ==> self.contents().len() <= self.capacity(),
    ;

    /// Number of readable bytes.
    fn data_len(&self) -> (r: usize)
        requires
            self.inv(),
        ensures
            r == self.contents().len(),
    ;

    /// Zero-copy view of the readable window.
    fn readable(&self) -> (r: &[u8])
        requires
            self.inv(),
        ensures
            r@ == self.contents(),
    ;

    /// Add data after the current contents; see [`append_effect`] for the
    /// exact outcome, including eviction of `Some(k)` already-consumed bytes
    /// when the free space does not suffice.
    fn append(&mut self, other: &[u8], evinceable: Option<usize>) -> (r: Result<
        bool,
        StreamParserError,
    >)
        requires
            old(self).inv(),
            evinceable matches Some(k) ==> k <= old(self).contents().len(),
        ensures
            final(self).inv(),
            final(self).is_fixed() == old(self).is_fixed(),
            final(self).capacity() == old(self).capacity(),
            ({
                let (rr, cc) = append_effect(
                    old(self).is_fixed(),
                    old(self).capacity(),
                    old(self).contents(),
                    other@,
                    evinceable,
                );
                r == rr && final(self).contents() == cc
            }),
    ;

    /// Empty the readable window.
    fn clear(&mut self)
        requires
            old(self).inv(),
        ensures
            final(self).inv(),
            final(self).is_fixed() == old(self).is_fixed(),
            final(self).capacity() == old(self).capacity(),
            final(self).contents() == Seq::<u8>::empty(),
    ;

    /// Discard the first `offset` bytes, shifting the rest to the front.
    fn compact(&mut self, offset: usize)
        requires
            old(self).inv(),
            offset <= old(self).contents().len(),
        ensures
            final(self).inv(),
            final(self).is_fixed() == old(self).is_fixed(),
            final(self).capacity() == old(self).capacity(),
            final(self).contents() == old(self).contents().skip(offset as int),
    ;

    /// How many bytes one bounded refill may bring: the free space of a
    /// bounded buffer; a growable buffer always offers room.
    fn free_space(&self) -> (r: usize)
        requires
            self.inv(),
        ensures
            self.is_fixed() ==> r == self.capacity() - self.contents().len(),
            !self.is_fixed() ==> r >= 1,
    ;
}

/// A pull-based source of input: it hands out the stream as a sequence of
/// non-empty byte chunks of caller-chosen size, until it is exhausted.
///
/// `pending()` is the byte sequence still to come: every yielded chunk is
/// a prefix of it and strictly shrinks it, which both pins the data handed
/// out and lets a driving loop that asks for one chunk per round terminate.
pub trait ChunkSource: Sized {
    /// Internal well-formedness that `next_chunk` relies on and preserves.
    spec fn src_inv(&self) -> bool;

    /// The bytes still to come.
    spec fn pending(&self) -> Seq<u8>;

    /// The next chunk, or `None` when the source is exhausted.
    fn next_chunk(&mut self) -> (r: Option<Vec<u8>>)
        requires
            old(self).src_inv(),
        ensures
            final(self).src_inv(),
            match r {
                Some(c) => {
                    &&& 0 < c@.len() <= old(self).pending().len()
                    &&& c@ == old(self).pending().take(c@.len() as int)
                    &&& final(self).pending() == old(self).pending().skip(c@.len() as int)
                },
                None => {
                    &&& old(self).pending().len() == 0
                    &&& final(self).pending() == old(self).pending()
                },
            },
    ;
}

/// A blocking source of input: one bounded read at a time.
///
/// `pending()` is the byte sequence still to come: every read hands out a
/// prefix of it. An empty read while room was offered means the stream
/// ended; an `Err` is a failure of the underlying reader, and a failed
/// read hands out nothing.
pub trait ByteReader: Sized {
    /// Internal well-formedness that `read_up_to` relies on and preserves.
    open spec fn rdr_inv(&self) -> bool {
        true
    }

    /// The bytes still to come.
    open spec fn pending(&self) -> Seq<u8> {
        Seq::empty()
    }

    /// Read at most `max` bytes; an empty result means end of stream.
    fn read_up_to(&mut self, max: usize) -> (r: Result<Vec<u8>, String>)
        requires
            old(self).rdr_inv(),
        ensures
            final(self).rdr_inv(),
            match r {
                Ok(c) => {
                    &&& c@.len() <= max
                    &&& c@.len() <= old(self).pending().len()
                    &&& c@ == old(self).pending().take(c@.len() as int)
                    &&& final(self).pending() == old(self).pending().skip(c@.len() as int)
                },
                Err(_) => final(self).pending() == old(self).pending(),
            },
    ;
}

} // verus!
