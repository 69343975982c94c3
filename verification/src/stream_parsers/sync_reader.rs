use vstd::prelude::*;

use crate::errors::StreamParserError;
use crate::heuristic::Heuristic;
use crate::logic::parse_internal;
use crate::parser_state::ParsableState;
use crate::stream_parsers::{
    failure_from_input, lemma_refill_conserves, lemma_step_suffix, lemma_suffix_of_refl,
    lemma_suffix_of_trans, record_from_input, refill_appends, refill_rank, suffix_of, window,
    ParserCommonFields, RefillOutcome,
};
use crate::traits::{parser_admits, parser_wf, Buffer, ByteReader, ParseVerdict};

verus! {

/// A lazy, pull-driven sequence of parse results over a blocking reader.
///
/// Each call to [`StreamParser::next`] runs the driving loop: when more
/// data are needed the unread bytes are compacted to the front of the
/// buffer and one bounded read refills the free space; then one parsing
/// step runs. A record or an error is yielded once, and `None` ends the
/// sequence at a soft end of stream.
pub struct StreamParser<R, B, O, P, H> {
    reader: R,
    common: ParserCommonFields<B, O, P, H>,
}

impl<R, B, O, P, H> StreamParser<R, B, O, P, H> where
    R: ByteReader,
    B: Buffer,
    P: Fn(&[u8]) -> ParseVerdict<O> + Copy,
    H: Heuristic,
 {
    /// The engine invariant.
    pub closed spec fn inv(&self) -> bool {
        &&& self.common.inv()
        &&& self.reader.rdr_inv()
    }

    /// The grammar parser this engine runs.
    pub closed spec fn parser(&self) -> P {
        self.common.parser
    }

    /// The bytes the reader has not yet handed out.
    pub closed spec fn source_pending(&self) -> Seq<u8> {
        self.reader.pending()
    }

    /// The bytes buffered but not yet consumed by the parser.
    pub closed spec fn unread(&self) -> Seq<u8> {
        window(&self.common.work_buffer, self.common.cursor)
    }

    /// Whether the next round will ask the reader for data: the previous
    /// step asked for more, or nothing is unread.
    pub closed spec fn awaiting_data(&self) -> bool {
        self.common.status.data is NeedMoreData || self.unread().len() == 0
    }

    /// Whether the scratch buffer is bounded.
    pub closed spec fn buffer_is_fixed(&self) -> bool {
        self.common.work_buffer.is_fixed()
    }

    /// The capacity of a bounded scratch buffer.
    pub closed spec fn buffer_capacity(&self) -> usize {
        self.common.work_buffer.capacity()
    }

    /// Build an engine over a blocking reader; it owns the scratch buffer
    /// for its lifetime.
    pub fn new(reader: R, work_buffer: B, parser: P, heuristic: H) -> (r: StreamParser<
        R,
        B,
        O,
        P,
        H,
    >)
        requires
            work_buffer.inv(),
            heuristic.wf(),
            parser_wf(parser),
            reader.rdr_inv(),
        ensures
            r.inv(),
            r.parser() == parser,
            r.buffer_is_fixed() == work_buffer.is_fixed(),
            r.buffer_capacity() == work_buffer.capacity(),
            r.source_pending() == reader.pending(),
            r.unread() == work_buffer.contents(),
            r.awaiting_data(),
    {
        let r = StreamParser {
            reader,
            common: ParserCommonFields::new(work_buffer, parser, heuristic),
        };
        proof {
            assert(r.unread() =~= work_buffer.contents());
        }
        r
    }

    /// Compact the unread bytes to the front of the buffer, then perform
    /// one bounded read into the freed space.
    fn refill(&mut self) -> (r: RefillOutcome)
        requires
            old(self).inv(),
        ensures
            final(self).inv(),
            final(self).parser() == old(self).parser(),
            final(self).buffer_is_fixed() == old(self).buffer_is_fixed(),
            final(self).buffer_capacity() == old(self).buffer_capacity(),
            ({
                let full = old(self).buffer_is_fixed() && old(self).unread().len() == old(
                    self,
                ).buffer_capacity();
                full <==> (match r {
                    RefillOutcome::Refused(StreamParserError::ExceededBufferUnknownSize {
                        ..
                    }) => true,
                    _ => false,
                })
            }),
            match r {
                RefillOutcome::Refilled => exists|c: Seq<u8>|
                    #[trigger] refill_appends(
                        window(&old(self).common.work_buffer, old(self).common.cursor),
                        window(&final(self).common.work_buffer, final(self).common.cursor),
                        old(self).source_pending(),
                        final(self).source_pending(),
                        c,
                    ),
                RefillOutcome::Exhausted => {
                    &&& final(self).source_pending() == old(self).source_pending()
                    &&& final(self).unread() == old(self).unread()
                },
                RefillOutcome::Refused(e) => ({
                    &&& final(self).source_pending() == old(self).source_pending()
                    &&& final(self).unread() == old(self).unread()
                    &&& match e {
                        StreamParserError::ExceededBufferUnknownSize { buffer_size } => old(
                            self,
                        ).buffer_is_fixed() && buffer_size == old(self).buffer_capacity(),
                        StreamParserError::Io { .. } => true,
                        _ => false,
                    }
                }),
            },
    {
        let ghost w0 = window(&self.common.work_buffer, self.common.cursor);
        // Compact the unread bytes to the front, so that the whole free
        // space is available for one bounded read.
        if self.common.cursor != 0 {
            self.common.work_buffer.compact(self.common.cursor);
            self.common.cursor = 0;
        }
        proof {
            assert(window(&self.common.work_buffer, self.common.cursor) =~= w0);
        }
        let free = self.common.work_buffer.free_space();
        if free == 0 {
            // The buffer is full while a record is still awaited, and
            // nothing is left to evict: fatal.
            return RefillOutcome::Refused(
                StreamParserError::ExceededBufferUnknownSize {
                    buffer_size: self.common.work_buffer.data_len(),
                },
            );
        }
        match self.reader.read_up_to(free) {
            Err(message) => RefillOutcome::Refused(StreamParserError::Io { message }),
            Ok(data) => {
                if data.len() == 0 {
                    // Soft end of stream.
                    proof {
                        assert(self.source_pending() =~= old(self).source_pending());
                        assert(self.unread() == window(
                            &self.common.work_buffer,
                            self.common.cursor,
                        ));
                    }
                    return RefillOutcome::Exhausted;
                }
                let appended = self.common.work_buffer.append(data.as_slice(), None);
                match appended {
                    Ok(_) => {},
                    Err(e) => {
                        // The read was bounded by the free space, so the
                        // append cannot be refused.
                        proof {
                            assert(false);
                        }
                        return RefillOutcome::Refused(e);
                    },
                }
                self.common.status.data = ParsableState::MaybeParsable;
                proof {
                    assert(window(&self.common.work_buffer, self.common.cursor) =~= w0 + data@);
                    assert(w0 == window(&old(self).common.work_buffer, old(self).common.cursor));
                    assert(refill_appends(
                        window(&old(self).common.work_buffer, old(self).common.cursor),
                        window(&self.common.work_buffer, self.common.cursor),
                        old(self).source_pending(),
                        self.source_pending(),
                        data@,
                    ));
                }
                RefillOutcome::Refilled
            },
        }
    }

    /// Produce the next item of the sequence.
    ///
    /// Every yielded record is one the parser admits on some byte window;
    /// every yielded parse failure reports a window the parser rejects. A
    /// full bounded buffer with nothing left to evict while a record is
    /// still awaited is fatal: `ExceededBufferUnknownSize` names this
    /// buffer's capacity. A reader failure surfaces as `Io`. `None` means
    /// the stream ended.
    ///
    /// A bounded buffer that is already full while more data are awaited
    /// cannot make progress: the fatal `ExceededBufferUnknownSize` is then
    /// the forced outcome.
    ///
    /// Conservation: the bytes still to process — the unread window
    /// followed by what the reader still pends — form a suffix of what they
    /// were: the engine consumes its input from the front, and never
    /// reorders, duplicates or invents bytes.
    pub fn next(&mut self) -> (r: Option<Result<O, StreamParserError>>)
        requires
            old(self).inv(),
        ensures
            final(self).inv(),
            ({
                let stuck = old(self).awaiting_data() && old(self).buffer_is_fixed() && old(
                    self,
                ).unread().len() == old(self).buffer_capacity();
                stuck ==> (match r {
                    Some(Err(StreamParserError::ExceededBufferUnknownSize { buffer_size })) =>
                        buffer_size == old(self).buffer_capacity(),
                    _ => false,
                })
            }),
            suffix_of(
                final(self).unread() + final(self).source_pending(),
                old(self).unread() + old(self).source_pending(),
            ),
            final(self).parser() == old(self).parser(),
            final(self).buffer_is_fixed() == old(self).buffer_is_fixed(),
            final(self).buffer_capacity() == old(self).buffer_capacity(),
            match r {
                Some(Ok(v)) => record_from_input(
                    old(self).parser(),
                    v,
                    old(self).unread() + old(self).source_pending(),
                    final(self).unread(),
                    final(self).source_pending(),
                ),
                Some(Err(e)) => match e {
                    StreamParserError::ParseFailure { .. } => failure_from_input::<O, P>(
                        old(self).parser(),
                        old(self).unread() + old(self).source_pending(),
                        final(self).unread(),
                        final(self).source_pending(),
                    ),
                    StreamParserError::ExceededBufferUnknownSize { buffer_size } => old(
                        self,
                    ).buffer_is_fixed() && buffer_size == old(self).buffer_capacity(),
                    StreamParserError::Io { .. } => true,
                    StreamParserError::ExceededBuffer { .. } => false,
                },
                None => true,
            },
    {
        proof {
            lemma_suffix_of_refl(old(self).unread() + old(self).source_pending());
        }
        loop
            invariant
                self.common.inv(),
                self.reader.rdr_inv(),
                self.common.parser == old(self).common.parser,
                self.common.work_buffer.is_fixed() == old(self).common.work_buffer.is_fixed(),
                self.common.work_buffer.capacity() == old(self).common.work_buffer.capacity(),
                suffix_of(
                    self.unread() + self.source_pending(),
                    old(self).unread() + old(self).source_pending(),
                ),
                ({
                    let stuck = old(self).awaiting_data() && old(self).buffer_is_fixed() && old(
                        self,
                    ).unread().len() == old(self).buffer_capacity();
                    stuck ==> self.awaiting_data() && self.unread() == old(self).unread()
                }),
            decreases 2 * self.reader.pending().len() + refill_rank(
                self.common.status,
                &self.common.work_buffer,
                self.common.cursor,
            ),
        {
            // Refill when the previous step asked for more data, or when
            // the whole readable window was already consumed.
            let unread = self.common.work_buffer.data_len() - self.common.cursor;
            if matches!(self.common.status.data, ParsableState::NeedMoreData) || unread == 0 {
                let ghost w_b = self.unread();
                let ghost p_b = self.source_pending();
                match self.refill() {
                    RefillOutcome::Refilled => {
                        proof {
                            let c = choose|c: Seq<u8>|
                                #[trigger] refill_appends(
                                    w_b,
                                    self.unread(),
                                    p_b,
                                    self.source_pending(),
                                    c,
                                );
                            lemma_refill_conserves(
                                w_b,
                                self.unread(),
                                p_b,
                                self.source_pending(),
                                c,
                            );
                        }
                    },
                    RefillOutcome::Exhausted => {
                        return None;
                    },
                    RefillOutcome::Refused(err) => {
                        return Some(Err(err));
                    },
                }
            }
            let parser = self.common.parser;
            let ghost pre = self.common.work_buffer.contents();
            let ghost cursor0 = self.common.cursor;
            let ghost sum_before_step = self.unread() + self.source_pending();
            let parse_internal_result = parse_internal(
                &mut self.common.work_buffer,
                &mut self.common.status,
                &mut self.common.cursor,
                parser,
                &mut self.common.heuristic,
            );
            proof {
                lemma_step_suffix(
                    pre,
                    cursor0,
                    self.common.work_buffer.contents(),
                    self.common.cursor,
                    self.source_pending(),
                );
                lemma_suffix_of_trans(
                    self.unread() + self.source_pending(),
                    sum_before_step,
                    old(self).unread() + old(self).source_pending(),
                );
            }
            match parse_internal_result {
                Ok(Some(data)) => {
                    proof {
                        let (mid, n) = choose|mid: usize, n: usize|
                            {
                                &&& cursor0 <= mid
                                &&& mid + n == self.common.cursor <= pre.len()
                                &&& #[trigger] parser_admits(
                                    parser,
                                    pre.skip(mid as int),
                                    ParseVerdict::Parsed { consumed: n, value: data },
                                )
                            };
                        let w = pre.skip(mid as int);
                        assert(self.unread() =~= w.skip(n as int));
                        assert(w + self.source_pending() =~= (pre.skip(cursor0 as int)
                            + self.source_pending()).skip(mid - cursor0));
                        lemma_suffix_of_trans(
                            w + self.source_pending(),
                            sum_before_step,
                            old(self).unread() + old(self).source_pending(),
                        );
                    }
                    return Some(Ok(data));
                },
                Err(err) => {
                    proof {
                        let mid = choose|mid: usize|
                            {
                                &&& cursor0 <= mid
                                &&& mid + 1 == self.common.cursor
                                &&& mid < pre.len()
                                &&& #[trigger] parser_admits(
                                    parser,
                                    pre.skip(mid as int),
                                    ParseVerdict::<O>::Failed,
                                )
                            };
                        let w = pre.skip(mid as int);
                        assert(self.unread() =~= w.skip(1));
                        assert(w + self.source_pending() =~= (pre.skip(cursor0 as int)
                            + self.source_pending()).skip(mid - cursor0));
                        lemma_suffix_of_trans(
                            w + self.source_pending(),
                            sum_before_step,
                            old(self).unread() + old(self).source_pending(),
                        );
                    }
                    return Some(Err(err));
                },
                Ok(None) => {},
            }
        }
    }
}

} // verus!
