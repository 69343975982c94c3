use vstd::prelude::*;

use crate::errors::StreamParserError;
use crate::heuristic::Heuristic;
use crate::logic::parse_internal;
use crate::parser_state::ParsableState;
use crate::stream_parsers::{
    failure_from_input, lemma_refill_conserves, lemma_step_suffix, lemma_suffix_of_refl,
    lemma_suffix_of_trans, record_from_input, refill_appends, refill_rank, suffix_of, window,
    ParserCommonFields, RefillOutcome,
};
use crate::traits::{append_effect, parser_admits, parser_wf, Buffer, ChunkSource, ParseVerdict};

verus! {

/// A lazy, pull-driven sequence of parse results over a chunked source.
///
/// Each call to [`StreamParser::next`] runs the driving loop: refill the
/// buffer from the source when more data are needed or nothing is unread,
/// then run one parsing step; a record or an error is yielded once, and
/// `None` ends the sequence when the source is exhausted.
pub struct StreamParser<I, B, O, P, H> {
    iterator: I,
    common: ParserCommonFields<B, O, P, H>,
}

impl<I, B, O, P, H> StreamParser<I, B, O, P, H> where
    I: ChunkSource,
    B: Buffer,
    P: Fn(&[u8]) -> ParseVerdict<O> + Copy,
    H: Heuristic,
 {
    /// The engine invariant.
    pub closed spec fn inv(&self) -> bool {
        &&& self.common.inv()
        &&& self.iterator.src_inv()
    }

    /// The grammar parser this engine runs.
    pub closed spec fn parser(&self) -> P {
        self.common.parser
    }

    /// The bytes the source has not yet handed out.
    pub closed spec fn source_pending(&self) -> Seq<u8> {
        self.iterator.pending()
    }

    /// The bytes buffered but not yet consumed by the parser.
    pub closed spec fn unread(&self) -> Seq<u8> {
        window(&self.common.work_buffer, self.common.cursor)
    }

    /// Whether the next round will ask the source for data: the previous
    /// step asked for more, or nothing is unread.
    pub closed spec fn awaiting_data(&self) -> bool {
        self.common.status.data is NeedMoreData || self.unread().len() == 0
    }

    /// Whether the scratch buffer is bounded, and by how much.
    pub closed spec fn buffer_is_fixed(&self) -> bool {
        self.common.work_buffer.is_fixed()
    }

    /// The capacity of a bounded scratch buffer.
    pub closed spec fn buffer_capacity(&self) -> usize {
        self.common.work_buffer.capacity()
    }

    /// Build an engine over a chunked source; it owns the scratch buffer
    /// for its lifetime.
    pub fn new(iterator: I, work_buffer: B, parser: P, heuristic: H) -> (r: StreamParser<
        I,
        B,
        O,
        P,
        H,
    >)
        requires
            work_buffer.inv(),
            heuristic.wf(),
            parser_wf(parser),
            iterator.src_inv(),
        ensures
            r.inv(),
            r.parser() == parser,
            r.buffer_is_fixed() == work_buffer.is_fixed(),
            r.buffer_capacity() == work_buffer.capacity(),
            r.source_pending() == iterator.pending(),
            r.unread() == work_buffer.contents(),
            r.awaiting_data(),
    {
        let r = StreamParser {
            iterator,
            common: ParserCommonFields::new(work_buffer, parser, heuristic),
        };
        proof {
            assert(r.unread() =~= work_buffer.contents());
        }
        r
    }

    /// Ask the source for one more chunk and append it to the unread
    /// window, evicting the bytes before the cursor if that is what it
    /// takes to make room.
    fn refill(&mut self) -> (r: RefillOutcome)
        requires
            old(self).inv(),
        ensures
            final(self).inv(),
            final(self).parser() == old(self).parser(),
            final(self).buffer_is_fixed() == old(self).buffer_is_fixed(),
            final(self).buffer_capacity() == old(self).buffer_capacity(),
            match r {
                RefillOutcome::Refilled => exists|c: Seq<u8>|
                    #[trigger] refill_appends(
                        window(&old(self).common.work_buffer, old(self).common.cursor),
                        window(&final(self).common.work_buffer, final(self).common.cursor),
                        old(self).source_pending(),
                        final(self).source_pending(),
                        c,
                    ),
                RefillOutcome::Exhausted => {
                    &&& old(self).source_pending().len() == 0
                    &&& final(self).source_pending() == old(self).source_pending()
                    &&& final(self).unread() == old(self).unread()
                },
                RefillOutcome::Refused(e) => ({
                    &&& e matches StreamParserError::ExceededBuffer { buffer_size, data_size }
                        && old(self).buffer_is_fixed() && buffer_size == old(
                        self,
                    ).buffer_capacity()
                    &&& final(self).unread() == old(self).unread()
                    &&& (exists|c: Seq<u8>|
                        {
                            &&& 0 < c.len() <= old(self).source_pending().len()
                            &&& c == old(self).source_pending().take(c.len() as int)
                            &&& final(self).source_pending() == old(self).source_pending().skip(
                                c.len() as int,
                            )
                            &&& (#[trigger] append_effect(
                                old(self).buffer_is_fixed(),
                                old(self).buffer_capacity(),
                                old(self).common.work_buffer.contents(),
                                c,
                                Some(old(self).common.cursor),
                            )).0 == Err::<bool, StreamParserError>(e)
                        })
                }),
            },
    {
        let ghost w0 = window(&self.common.work_buffer, self.common.cursor);
        let ghost p0 = self.iterator.pending();
        match self.iterator.next_chunk() {
            Some(data) => {
                let eviction = self.common.work_buffer.append(
                    data.as_slice(),
                    Some(self.common.cursor),
                );
                match eviction {
                    Err(err) => {
                        proof {
                            assert(self.unread() =~= w0);
                            assert((append_effect(
                                old(self).buffer_is_fixed(),
                                old(self).buffer_capacity(),
                                old(self).common.work_buffer.contents(),
                                data@,
                                Some(old(self).common.cursor),
                            )).0 == Err::<bool, StreamParserError>(err));
                            assert(data@ == old(self).source_pending().take(data@.len() as int));
                            assert(self.source_pending() == old(self).source_pending().skip(
                                data@.len() as int,
                            ));
                        }
                        return RefillOutcome::Refused(err);
                    },
                    Ok(true) => {
                        self.common.cursor = 0;
                    },
                    Ok(false) => {},
                }
                // The work buffer can be parsed now
                self.common.status.data = ParsableState::MaybeParsable;
                proof {
                    assert(window(&self.common.work_buffer, self.common.cursor) =~= w0 + data@);
                    assert(w0 == window(&old(self).common.work_buffer, old(self).common.cursor));
                    assert(refill_appends(
                        window(&old(self).common.work_buffer, old(self).common.cursor),
                        window(&self.common.work_buffer, self.common.cursor),
                        old(self).source_pending(),
                        self.source_pending(),
                        data@,
                    ));
                }
                RefillOutcome::Refilled
            },
            None => RefillOutcome::Exhausted,
        }
    }

    /// Produce the next item of the sequence.
    ///
    /// Every yielded record is one the parser admits on some byte window;
    /// every yielded parse failure reports a window the parser rejects; a
    /// buffer overflow can only name the capacity of this engine's bounded
    /// buffer; `None` comes only once the source has nothing left.
    ///
    /// Conservation: the bytes still to process — the unread window
    /// followed by what the source still pends — form a suffix of what they
    /// were: the engine consumes its input from the front, and never
    /// reorders, duplicates or invents bytes. The one exception is the
    /// fatal overflow, where exactly the refused chunk is missing from
    /// between the unread window and the pending bytes.
    pub fn next(&mut self) -> (r: Option<Result<O, StreamParserError>>)
        requires
            old(self).inv(),
        ensures
            final(self).inv(),
            r is None ==> final(self).source_pending().len() == 0,
            (match r {
                Some(Err(StreamParserError::ExceededBuffer { .. })) => exists|c: Seq<u8>|
                    #[trigger] suffix_of(
                        final(self).unread() + (c + final(self).source_pending()),
                        old(self).unread() + old(self).source_pending(),
                    ),
                _ => suffix_of(
                    final(self).unread() + final(self).source_pending(),
                    old(self).unread() + old(self).source_pending(),
                ),
            }),
            final(self).parser() == old(self).parser(),
            final(self).buffer_is_fixed() == old(self).buffer_is_fixed(),
            final(self).buffer_capacity() == old(self).buffer_capacity(),
            match r {
                Some(Ok(v)) => record_from_input(
                    old(self).parser(),
                    v,
                    old(self).unread() + old(self).source_pending(),
                    final(self).unread(),
                    final(self).source_pending(),
                ),
                Some(Err(e)) => match e {
                    StreamParserError::ParseFailure { .. } => failure_from_input::<O, P>(
                        old(self).parser(),
                        old(self).unread() + old(self).source_pending(),
                        final(self).unread(),
                        final(self).source_pending(),
                    ),
                    StreamParserError::ExceededBuffer { buffer_size, data_size } => old(
                        self,
                    ).buffer_is_fixed() && buffer_size == old(self).buffer_capacity(),
                    _ => false,
                },
                None => true,
            },
    {
        proof {
            lemma_suffix_of_refl(old(self).unread() + old(self).source_pending());
        }
        loop
            invariant
                self.common.inv(),
                self.iterator.src_inv(),
                self.common.parser == old(self).common.parser,
                self.common.work_buffer.is_fixed() == old(self).common.work_buffer.is_fixed(),
                self.common.work_buffer.capacity() == old(self).common.work_buffer.capacity(),
                suffix_of(
                    self.unread() + self.source_pending(),
                    old(self).unread() + old(self).source_pending(),
                ),
            decreases 2 * self.iterator.pending().len() + refill_rank(
                self.common.status,
                &self.common.work_buffer,
                self.common.cursor,
            ),
        {
            // Ask the source for more data if the previous step asked for
            // more, or if the whole readable window was already consumed.
            let unread = self.common.work_buffer.data_len() - self.common.cursor;
            if matches!(self.common.status.data, ParsableState::NeedMoreData) || unread == 0 {
                let ghost w_b = self.unread();
                let ghost p_b = self.source_pending();
                let ghost fixed_b = self.buffer_is_fixed();
                let ghost cap_b = self.buffer_capacity();
                let ghost cont_b = self.common.work_buffer.contents();
                let ghost cur_b = self.common.cursor;
                match self.refill() {
                    RefillOutcome::Refilled => {
                        proof {
                            let c = choose|c: Seq<u8>|
                                #[trigger] refill_appends(
                                    w_b,
                                    self.unread(),
                                    p_b,
                                    self.source_pending(),
                                    c,
                                );
                            lemma_refill_conserves(
                                w_b,
                                self.unread(),
                                p_b,
                                self.source_pending(),
                                c,
                            );
                        }
                    },
                    RefillOutcome::Exhausted => {
                        return None;
                    },
                    RefillOutcome::Refused(err) => {
                        proof {
                            let c = choose|c: Seq<u8>|
                                {
                                    &&& 0 < c.len() <= p_b.len()
                                    &&& c == p_b.take(c.len() as int)
                                    &&& self.source_pending() == p_b.skip(c.len() as int)
                                    &&& (#[trigger] append_effect(
                                        fixed_b,
                                        cap_b,
                                        cont_b,
                                        c,
                                        Some(cur_b),
                                    )).0 == Err::<bool, StreamParserError>(err)
                                };
                            assert(self.unread() + (c + self.source_pending()) =~= w_b + p_b);
                        }
                        return Some(Err(err));
                    },
                }
            }
            let parser = self.common.parser;
            let ghost pre = self.common.work_buffer.contents();
            let ghost cursor0 = self.common.cursor;
            let ghost sum_before_step = self.unread() + self.source_pending();
            let parse_internal_result = parse_internal(
                &mut self.common.work_buffer,
                &mut self.common.status,
                &mut self.common.cursor,
                parser,
                &mut self.common.heuristic,
            );
            proof {
                lemma_step_suffix(
                    pre,
                    cursor0,
                    self.common.work_buffer.contents(),
                    self.common.cursor,
                    self.source_pending(),
                );
                lemma_suffix_of_trans(
                    self.unread() + self.source_pending(),
                    sum_before_step,
                    old(self).unread() + old(self).source_pending(),
                );
            }
            match parse_internal_result {
                Ok(Some(data)) => {
                    proof {
                        let (mid, n) = choose|mid: usize, n: usize|
                            {
                                &&& cursor0 <= mid
                                &&& mid + n == self.common.cursor <= pre.len()
                                &&& #[trigger] parser_admits(
                                    parser,
                                    pre.skip(mid as int),
                                    ParseVerdict::Parsed { consumed: n, value: data },
                                )
                            };
                        let w = pre.skip(mid as int);
                        assert(self.unread() =~= w.skip(n as int));
                        assert(w + self.source_pending() =~= (pre.skip(cursor0 as int)
                            + self.source_pending()).skip(mid - cursor0));
                        lemma_suffix_of_trans(
                            w + self.source_pending(),
                            sum_before_step,
                            old(self).unread() + old(self).source_pending(),
                        );
                    }
                    return Some(Ok(data));
                },
                Err(err) => {
                    proof {
                        let mid = choose|mid: usize|
                            {
                                &&& cursor0 <= mid
                                &&& mid + 1 == self.common.cursor
                                &&& mid < pre.len()
                                &&& #[trigger] parser_admits(
                                    parser,
                                    pre.skip(mid as int),
                                    ParseVerdict::<O>::Failed,
                                )
                            };
                        let w = pre.skip(mid as int);
                        assert(self.unread() =~= w.skip(1));
                        assert(w + self.source_pending() =~= (pre.skip(cursor0 as int)
                            + self.source_pending()).skip(mid - cursor0));
                        lemma_suffix_of_trans(
                            w + self.source_pending(),
                            sum_before_step,
                            old(self).unread() + old(self).source_pending(),
                        );
                    }
                    return Some(Err(err));
                },
                Ok(None) => {},
            }
        }
    }
}

} // verus!
