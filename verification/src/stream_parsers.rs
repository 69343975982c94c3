use vstd::prelude::*;

use crate::heuristic::Heuristic;
use crate::parser_state::{ParsableState, ParseStatus, SearchState};
use crate::traits::{parser_admits, parser_wf, Buffer, ParseVerdict};

pub mod sync_iterator;
pub mod sync_reader;

verus! {

/// The fields shared by every stream-parser engine: the scratch buffer, the
/// phase pair, the read cursor into the buffer, the grammar parser and the
/// boundary heuristic.
pub struct ParserCommonFields<B, O, P, H> {
    /// Parsed buffer
    pub work_buffer: B,
    /// Defines both whether a new group must still be searched and whether
    /// the parser needs more data before a decision can be taken
    pub status: ParseStatus,
    /// Work buffer cursor: the position at which unread data start
    pub cursor: usize,
    /// The master parser used to take parsing decisions and produce the
    /// records yielded by the stream parser
    pub parser: P,
    /// The boundary heuristic
    pub heuristic: H,
    /// The record type the parser produces
    pub record: core::marker::PhantomData<O>,
}

impl<B: Buffer, O, P: Fn(&[u8]) -> ParseVerdict<O>, H: Heuristic> ParserCommonFields<B, O, P, H> {
    /// The engine invariant: a well-formed buffer, a cursor inside the
    /// readable window, a well-formed heuristic and a well-formed parser.
    pub open spec fn inv(&self) -> bool {
        &&& self.work_buffer.inv()
        &&& self.cursor <= self.work_buffer.contents().len()
        &&& self.heuristic.wf()
        &&& parser_wf(self.parser)
    }

    /// Assemble the shared fields of a fresh engine: nothing searched,
    /// nothing parsable, cursor at the front.
    pub fn new(work_buffer: B, parser: P, heuristic: H) -> (r: ParserCommonFields<B, O, P, H>)
        requires
            work_buffer.inv(),
            heuristic.wf(),
            parser_wf(parser),
        ensures
            r.inv(),
            r.work_buffer == work_buffer,
            r.parser == parser,
            r.heuristic == heuristic,
            r.cursor == 0,
            r.status.search == SearchState::SearchForStart,
            r.status.data == ParsableState::NeedMoreData,
    {
        ParserCommonFields {
            work_buffer,
            status: ParseStatus::initial(),
            cursor: 0,
            parser,
            heuristic,
            record: core::marker::PhantomData,
        }
    }
}

/// The unread bytes of a buffer: what lies at and after the read cursor.
pub open spec fn window<B: Buffer>(buffer: &B, cursor: usize) -> Seq<u8> {
    buffer.contents().skip(cursor as int)
}

/// What one successful refill does, whatever the source adapter: the unread
/// window `w0` grows at its end by exactly `c`, the next bytes of the
/// source (`p0` before, `p1` after), in order and nothing else. Consumed
/// bytes may be evicted or compacted away, but the bytes still to parse are
/// never reordered, dropped or duplicated — which is why the records a
/// stream yields do not depend on how the input was cut into reads.
pub open spec fn refill_appends(
    w0: Seq<u8>,
    w1: Seq<u8>,
    p0: Seq<u8>,
    p1: Seq<u8>,
    c: Seq<u8>,
) -> bool {
    &&& 0 < c.len() <= p0.len()
    &&& w1 == w0 + c
    &&& c == p0.take(c.len() as int)
    &&& p1 == p0.skip(c.len() as int)
}

/// `a` is what remains of `b` once some front part was consumed.
pub open spec fn suffix_of(a: Seq<u8>, b: Seq<u8>) -> bool {
    exists|k: int| 0 <= k <= b.len() && a == #[trigger] b.skip(k)
}

/// A sequence is a suffix of itself.
pub proof fn lemma_suffix_of_refl(a: Seq<u8>)
    ensures
        suffix_of(a, a),
{
    assert(a.skip(0) =~= a);
}

/// Consuming twice from the front is consuming once.
pub proof fn lemma_suffix_of_trans(a: Seq<u8>, b: Seq<u8>, c: Seq<u8>)
    requires
        suffix_of(a, b),
        suffix_of(b, c),
    ensures
        suffix_of(a, c),
{
    let k1 = choose|k1: int| 0 <= k1 <= b.len() && a == #[trigger] b.skip(k1);
    let k2 = choose|k2: int| 0 <= k2 <= c.len() && b == #[trigger] c.skip(k2);
    assert(a =~= c.skip(k1 + k2));
}

/// A refill conserves the bytes still to process: the unread window plus
/// what the source still pends is the same byte sequence before and after.
pub proof fn lemma_refill_conserves(w0: Seq<u8>, w1: Seq<u8>, p0: Seq<u8>, p1: Seq<u8>, c: Seq<u8>)
    requires
        refill_appends(w0, w1, p0, p1, c),
    ensures
        w1 + p1 == w0 + p0,
{
    assert(w1 + p1 =~= w0 + p0);
}

/// One parsing step consumes only from the front of the unread window: it
/// either keeps the buffered bytes and moves the cursor forward, or
/// discards the whole window; either way what is left to process (unread
/// window plus pending source bytes) is a suffix of what there was.
pub proof fn lemma_step_suffix(pre: Seq<u8>, c0: usize, post: Seq<u8>, c1: usize, pending: Seq<u8>)
    requires
        c0 <= pre.len(),
        c1 <= post.len(),
        (post == pre && c0 <= c1) || (post == Seq::<u8>::empty() && c1 == 0),
    ensures
        suffix_of(post.skip(c1 as int) + pending, pre.skip(c0 as int) + pending),
{
    let w0 = pre.skip(c0 as int);
    if post == pre && c0 <= c1 {
        let d = c1 - c0;
        assert(post.skip(c1 as int) + pending =~= (w0 + pending).skip(d));
    } else {
        assert(post.skip(c1 as int) + pending =~= (w0 + pending).skip(w0.len() as int));
    }
}

/// Law: refills compose — two consecutive refills amount to one refill of
/// the concatenated bytes. However the input is cut into chunks or reads,
/// the unread window therefore receives exactly the source's bytes, in
/// order: the sequence of bytes the parser gets to see does not depend on
/// the cut.
pub proof fn lemma_refill_appends_compose(
    w0: Seq<u8>,
    w1: Seq<u8>,
    w2: Seq<u8>,
    p0: Seq<u8>,
    p1: Seq<u8>,
    p2: Seq<u8>,
    c1: Seq<u8>,
    c2: Seq<u8>,
)
    requires
        refill_appends(w0, w1, p0, p1, c1),
        refill_appends(w1, w2, p1, p2, c2),
    ensures
        refill_appends(w0, w2, p0, p2, c1 + c2),
{
    let l1 = c1.len() as int;
    let l2 = c2.len() as int;
    assert(w2 =~= w0 + (c1 + c2));
    assert(c1 + c2 =~= p0.take(l1 + l2));
    assert(p2 =~= p0.skip(l1 + l2));
}

/// The record `v` was parsed out of this engine's own input: the parser
/// admits it on a window `w` that sat, in order, at the front of the bytes
/// the engine still had to process (`pre_total`, its unread window followed
/// by the source's pending bytes); afterwards exactly the consumed bytes of
/// `w` are gone and its remainder is the new unread window.
pub open spec fn record_from_input<O, P: Fn(&[u8]) -> ParseVerdict<O>>(
    parser: P,
    v: O,
    pre_total: Seq<u8>,
    post_unread: Seq<u8>,
    post_pending: Seq<u8>,
) -> bool {
    exists|w: Seq<u8>, n: usize|
        {
            &&& #[trigger] parser_admits(parser, w, ParseVerdict::Parsed { consumed: n, value: v })
            &&& n <= w.len()
            &&& post_unread == w.skip(n as int)
            &&& suffix_of(w + post_pending, pre_total)
        }
}

/// A parse failure reported out of this engine's own input: the parser
/// rejects a non-empty window `w` that sat, in order, in the bytes the
/// engine still had to process; afterwards exactly one byte of `w` is gone
/// and its remainder is the new unread window.
pub open spec fn failure_from_input<O, P: Fn(&[u8]) -> ParseVerdict<O>>(
    parser: P,
    pre_total: Seq<u8>,
    post_unread: Seq<u8>,
    post_pending: Seq<u8>,
) -> bool {
    exists|w: Seq<u8>|
        {
            &&& #[trigger] parser_admits(parser, w, ParseVerdict::<O>::Failed)
            &&& w.len() >= 1
            &&& post_unread == w.skip(1)
            &&& suffix_of(w + post_pending, pre_total)
        }
}

/// How one refill attempt ended.
pub enum RefillOutcome {
    /// New bytes stand at the end of the unread window.
    Refilled,
    /// The source has nothing left: the stream ends.
    Exhausted,
    /// The source had bytes, but the buffer could not take them, or the
    /// read itself failed.
    Refused(crate::errors::StreamParserError),
}

/// Rank of the refill decision inside the driving loop: 0 when the next
/// round will ask the source for data (more data needed, or nothing unread),
/// 1 otherwise. Each round either returns, shrinks the source, or lowers
/// this rank, which bounds the loop.
pub open spec fn refill_rank<B: Buffer>(status: ParseStatus, buffer: &B, cursor: usize) -> int {
    if status.data is NeedMoreData || buffer.contents().len() == cursor {
        0
    } else {
        1
    }
}

} // verus!
