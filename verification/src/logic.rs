use vstd::prelude::*;

use crate::errors::StreamParserError;
use crate::heuristic::Heuristic;
use crate::parser_state::{ParsableState, ParseStatus, SearchState};
use crate::traits::{parser_admits, parser_wf, Buffer, ParseVerdict};

verus! {

/// The return state of one parsing iteration.
#[derive(Clone, Debug, PartialEq, Eq)]
pub enum ReturnState<R> {
    /// The parser does not have enough data to take a decision
    NeedMoreData,
    /// The parser produced a new record
    Data(R),
    /// An error occurred in the iteration: either a buffer overflow or a
    /// parsing failure
    Error(StreamParserError),
}

/// The step advanced the cursor from `cursor0` to `cursor1` because the
/// parser, run on the window of `pre` that starts at some position `mid` at
/// or after `cursor0`, produced the record `v` from `cursor1 - mid` bytes.
pub open spec fn step_produced<O, P: Fn(&[u8]) -> ParseVerdict<O>>(
    parser: P,
    pre: Seq<u8>,
    cursor0: usize,
    cursor1: usize,
    v: O,
) -> bool {
    exists|mid: usize, n: usize|
        {
            &&& cursor0 <= mid
            &&& mid + n == cursor1 <= pre.len()
            &&& #[trigger] parser_admits(
                parser,
                pre.skip(mid as int),
                ParseVerdict::Parsed { consumed: n, value: v },
            )
        }
}

/// The step advanced the cursor from `cursor0` to `cursor1 = mid + 1`
/// because the parser rejected the non-empty window of `pre` that starts at
/// `mid`: exactly one byte past the offending position is consumed.
pub open spec fn step_rejected<O, P: Fn(&[u8]) -> ParseVerdict<O>>(
    parser: P,
    pre: Seq<u8>,
    cursor0: usize,
    cursor1: usize,
) -> bool {
    exists|mid: usize|
        {
            &&& cursor0 <= mid
            &&& mid + 1 == cursor1
            &&& mid < pre.len()
            &&& #[trigger] parser_admits(parser, pre.skip(mid as int), ParseVerdict::<O>::Failed)
        }
}

/// Exact effect dictated by one parser verdict `v`, answered on the window
/// of `pre` that starts at `mid`: what the step returns, where the cursor
/// lands, and what the search phase becomes. The buffered bytes themselves
/// are untouched in every case.
pub open spec fn verdict_step<O>(
    v: ParseVerdict<O>,
    pre: Seq<u8>,
    mid: usize,
    r: Result<ReturnState<O>, StreamParserError>,
    new_cursor: usize,
    old_search: SearchState,
    new_search: SearchState,
) -> bool {
    match v {
        ParseVerdict::Parsed { consumed, value } => {
            &&& r == Ok::<ReturnState<O>, StreamParserError>(ReturnState::Data(value))
            &&& new_cursor == mid + consumed
            &&& new_search == SearchState::SearchForStart
        },
        ParseVerdict::Incomplete => {
            &&& r == Ok::<ReturnState<O>, StreamParserError>(ReturnState::NeedMoreData)
            &&& new_cursor == mid
            &&& new_search == old_search
        },
        ParseVerdict::Failed => {
            if mid == pre.len() {
                &&& r == Ok::<ReturnState<O>, StreamParserError>(ReturnState::NeedMoreData)
                &&& new_cursor == mid
                &&& new_search == SearchState::SearchForStart
            } else {
                &&& new_cursor == mid + 1
                &&& new_search == SearchState::SearchForStart
                &&& (match r {
                    Ok(ReturnState::Error(e)) => match e {
                        StreamParserError::ParseFailure { context } => context@ == pre.skip(
                            mid as int,
                        ),
                        _ => false,
                    },
                    _ => false,
                })
            }
        },
    }
}

/// Completeness of one step: the result `r` is exactly what some verdict of
/// the parser dictates — answered at the old cursor when the start was
/// already found, or at a position the heuristic advanced to; while a start
/// is still searched, the heuristic may instead decide by itself that more
/// data are needed.
pub open spec fn step_complete<O, P: Fn(&[u8]) -> ParseVerdict<O>>(
    parser: P,
    pre: Seq<u8>,
    c0: usize,
    old_search: SearchState,
    r: Result<ReturnState<O>, StreamParserError>,
    post: Seq<u8>,
    c1: usize,
    new_search: SearchState,
) -> bool {
    let parser_decided = exists|mid: usize, v: ParseVerdict<O>|
        {
            &&& c0 <= mid <= pre.len()
            &&& (old_search == SearchState::StartFound ==> mid == c0)
            &&& #[trigger] parser_admits(parser, pre.skip(mid as int), v)
            &&& post == pre
            &&& verdict_step(v, pre, mid, r, c1, old_search, new_search)
        };
    if old_search == SearchState::StartFound {
        parser_decided
    } else {
        r == Ok::<ReturnState<O>, StreamParserError>(ReturnState::NeedMoreData) || parser_decided
    }
}

/// One step of the parsing state machine, on the unread window
/// `contents[cursor..]`: run the boundary heuristic while a start is still
/// searched; then run the grammar parser and classify its verdict.
///
/// Forward progress: a `ReturnState::Error` always advances the cursor past
/// the offending byte, so the same position is never reported twice.
/// Completeness: see [`step_complete`] — once a start is found, the
/// parser's verdict alone dictates the outcome, the cursor advance (exactly
/// the consumed count on success, exactly one byte past a rejected
/// position) and the kept bytes.
pub fn parsing_logic<B: Buffer, O, P: Fn(&[u8]) -> ParseVerdict<O>, H: Heuristic>(
    work_buffer: &mut B,
    status: &mut ParseStatus,
    cursor: &mut usize,
    parser: P,
    start_group: &mut H,
) -> (r: Result<ReturnState<O>, StreamParserError>)
    requires
        parser_wf(parser),
        old(start_group).wf(),
        old(work_buffer).inv(),
        *old(cursor) <= old(work_buffer).contents().len(),
    ensures
        final(start_group).wf(),
        final(work_buffer).inv(),
        final(work_buffer).is_fixed() == old(work_buffer).is_fixed(),
        final(work_buffer).capacity() == old(work_buffer).capacity(),
        *final(cursor) <= final(work_buffer).contents().len(),
        match r {
            Ok(ReturnState::Data(v)) => {
                &&& final(work_buffer).contents() == old(work_buffer).contents()
                &&& final(status).search == SearchState::SearchForStart
                &&& step_produced(
                    parser,
                    old(work_buffer).contents(),
                    *old(cursor),
                    *final(cursor),
                    v,
                )
            },
            Ok(ReturnState::Error(e)) => {
                &&& e matches StreamParserError::ParseFailure { .. }
                &&& final(work_buffer).contents() == old(work_buffer).contents()
                &&& final(status).search == SearchState::SearchForStart
                &&& *final(cursor) > *old(cursor)
                &&& step_rejected::<O, P>(
                    parser,
                    old(work_buffer).contents(),
                    *old(cursor),
                    *final(cursor),
                )
            },
            Ok(ReturnState::NeedMoreData) => ({
                let b1 = final(work_buffer).contents();
                let c1 = *final(cursor);
                let kept = b1 == old(work_buffer).contents() && c1 >= *old(cursor);
                let discarded = b1 == Seq::<u8>::empty() && c1 == 0;
                kept || discarded
            }),
            Err(_) => false,
        },
        final(status).data == old(status).data,
        step_complete(
            parser,
            old(work_buffer).contents(),
            *old(cursor),
            old(status).search,
            r,
            final(work_buffer).contents(),
            *final(cursor),
            final(status).search,
        ),
{
    if matches!(status.search, SearchState::SearchForStart) {
        match start_group.apply::<B, O>(work_buffer, status, cursor) {
            Ok(Some(return_state)) => {
                return Ok(return_state);
            },
            Ok(None) => {},
            Err(err) => {
                return Err(err);
            },
        }
    }
    let len = work_buffer.data_len();
    let input = vstd::slice::slice_subrange(work_buffer.readable(), *cursor, len);
    let ghost mid = *cursor;
    let result_parse = parser(input);
    proof {
        assert(input@ =~= work_buffer.contents().skip(mid as int));
    }
    match result_parse {
        ParseVerdict::Parsed { consumed, value } => {
            *cursor = *cursor + consumed;
            status.search = SearchState::SearchForStart;
            proof {
                assert(parser_admits(
                    parser,
                    old(work_buffer).contents().skip(mid as int),
                    ParseVerdict::Parsed { consumed, value },
                ));
                assert(step_produced(
                    parser,
                    old(work_buffer).contents(),
                    *old(cursor),
                    *cursor,
                    value,
                ));
            }
            Ok(ReturnState::Data(value))
        },
        ParseVerdict::Incomplete => {
            proof {
                assert(parser_admits(
                    parser,
                    old(work_buffer).contents().skip(mid as int),
                    ParseVerdict::<O>::Incomplete,
                ));
            }
            Ok(ReturnState::NeedMoreData)
        },
        ParseVerdict::Failed => {
            status.search = SearchState::SearchForStart;
            proof {
                assert(parser_admits(
                    parser,
                    old(work_buffer).contents().skip(mid as int),
                    ParseVerdict::<O>::Failed,
                ));
            }
            if input.is_empty() {
                return Ok(ReturnState::NeedMoreData);
            }
            let context = vstd::slice::slice_to_vec(input);
            *cursor = *cursor + 1;
            proof {
                assert(step_rejected::<O, P>(
                    parser,
                    old(work_buffer).contents(),
                    *old(cursor),
                    *cursor,
                ));
            }
            Ok(ReturnState::Error(StreamParserError::ParseFailure { context }))
        },
    }
}

/// Run one step and record in the status whether more data are needed; a
/// parse failure is handed back as the error of this iteration.
///
/// Completeness: as for [`parsing_logic`], the outcome is exactly dictated
/// by a verdict of the parser (see [`step_complete`], applied here to the
/// result mapped back onto [`ReturnState`]): with the start already found,
/// a produced record is returned with the cursor advanced by exactly the
/// consumed count, an incomplete verdict changes nothing but the data
/// phase, and a rejected non-empty window yields its bytes as the failure
/// context with the cursor one byte further.
pub fn parse_internal<B: Buffer, O, P: Fn(&[u8]) -> ParseVerdict<O>, H: Heuristic>(
    work_buffer: &mut B,
    status: &mut ParseStatus,
    cursor: &mut usize,
    parser: P,
    heuristic: &mut H,
) -> (r: Result<Option<O>, StreamParserError>)
    requires
        parser_wf(parser),
        old(heuristic).wf(),
        old(work_buffer).inv(),
        *old(cursor) <= old(work_buffer).contents().len(),
    ensures
        final(heuristic).wf(),
        final(work_buffer).inv(),
        final(work_buffer).is_fixed() == old(work_buffer).is_fixed(),
        final(work_buffer).capacity() == old(work_buffer).capacity(),
        *final(cursor) <= final(work_buffer).contents().len(),
        match r {
            Ok(Some(v)) => {
                &&& final(status).data == ParsableState::MaybeParsable
                &&& final(work_buffer).contents() == old(work_buffer).contents()
                &&& *final(cursor) >= *old(cursor)
                &&& step_produced(
                    parser,
                    old(work_buffer).contents(),
                    *old(cursor),
                    *final(cursor),
                    v,
                )
            },
            Ok(None) => final(status).data == ParsableState::NeedMoreData && ({
                let b1 = final(work_buffer).contents();
                let c1 = *final(cursor);
                let kept = b1 == old(work_buffer).contents() && c1 >= *old(cursor);
                let discarded = b1 == Seq::<u8>::empty() && c1 == 0;
                kept || discarded
            }),
            Err(e) => {
                &&& e matches StreamParserError::ParseFailure { .. }
                &&& final(work_buffer).contents() == old(work_buffer).contents()
                &&& final(status).data == old(status).data
                &&& *final(cursor) > *old(cursor)
                &&& step_rejected::<O, P>(
                    parser,
                    old(work_buffer).contents(),
                    *old(cursor),
                    *final(cursor),
                )
            },
        },
        ({
            let rs = match r {
                Ok(Some(v)) => Ok::<ReturnState<O>, StreamParserError>(ReturnState::Data(v)),
                Ok(None) => Ok(ReturnState::NeedMoreData),
                Err(e) => Ok(ReturnState::Error(e)),
            };
            step_complete(
                parser,
                old(work_buffer).contents(),
                *old(cursor),
                old(status).search,
                rs,
                final(work_buffer).contents(),
                *final(cursor),
                final(status).search,
            )
        }),
{
    let return_state = parsing_logic(work_buffer, status, cursor, parser, heuristic);
    let ghost grs = return_state;
    match return_state {
        Ok(ReturnState::NeedMoreData) => {
            status.data = ParsableState::NeedMoreData;
            Ok(None)
        },
        Ok(ReturnState::Data(data)) => {
            status.data = ParsableState::MaybeParsable;
            Ok(Some(data))
        },
        Ok(ReturnState::Error(err)) => Err(err),
        Err(err) => Err(err),
    }
}

} // verus!
