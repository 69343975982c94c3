use vstd::prelude::*;

use crate::errors::StreamParserError;
use crate::logic::ReturnState;
use crate::parser_state::{ParseStatus, SearchState};
use crate::traits::{matcher_admits, matcher_wf, Buffer, MatchVerdict};
use crate::utils::{find_subslice, first_match_at, lemma_first_match_unique, no_match_in};

verus! {

/// A pluggable strategy to skip garbage and locate the start of the next
/// record before the grammar parser is invoked. It runs only while the
/// search phase is still `SearchForStart`.
///
/// `Ok(Some(outcome))` short-circuits the step (the heuristic already
/// decided, and only ever decides `NeedMoreData`); `Ok(None)` means the
/// parser should now run, with the cursor possibly advanced and the buffered
/// bytes untouched.
pub trait Heuristic: Sized {
    /// Well-formedness that `apply` relies on and preserves.
    spec fn wf(&self) -> bool;

    /// Run the boundary search on the unread window `contents[cursor..]`.
    fn apply<B: Buffer, O>(
        &mut self,
        work_buffer: &mut B,
        status: &mut ParseStatus,
        cursor: &mut usize,
    ) -> (r: Result<Option<ReturnState<O>>, StreamParserError>)
        requires
            old(self).wf(),
            old(work_buffer).inv(),
            *old(cursor) <= old(work_buffer).contents().len(),
        ensures
            final(self).wf(),
            final(work_buffer).inv(),
            final(work_buffer).is_fixed() == old(work_buffer).is_fixed(),
            final(work_buffer).capacity() == old(work_buffer).capacity(),
            *final(cursor) <= final(work_buffer).contents().len(),
            final(status).data == old(status).data,
            match r {
                Ok(None) => final(work_buffer).contents() == old(work_buffer).contents()
                    && *final(cursor) >= *old(cursor),
                Ok(Some(rs)) => rs matches ReturnState::NeedMoreData && ({
                    let b1 = final(work_buffer).contents();
                    let c1 = *final(cursor);
                    let kept = b1 == old(work_buffer).contents() && c1 == *old(cursor);
                    let discarded = b1 == Seq::<u8>::empty() && c1 == 0;
                    kept || discarded
                }),
                Err(_) => false,
            },
    ;
}

/// The trivial heuristic: no boundary search at all. Error recovery then
/// rests on the single-byte advance of the parsing step itself.
pub struct Increment;

impl Heuristic for Increment {
    open spec fn wf(&self) -> bool {
        true
    }

    fn apply<B: Buffer, O>(
        &mut self,
        _work_buffer: &mut B,
        _status: &mut ParseStatus,
        _cursor: &mut usize,
    ) -> (r: Result<Option<ReturnState<O>>, StreamParserError>)
        ensures
            r == Ok::<Option<ReturnState<O>>, StreamParserError>(None),
            *final(_work_buffer) == *old(_work_buffer),
            *final(_status) == *old(_status),
            *final(_cursor) == *old(_cursor),
    {
        Ok(None)
    }
}

/// What one run of the start-group search does, once the marker was found
/// first at offset `g` of the window `w` and the matcher answered `v` there.
pub open spec fn search_case<O>(
    v: MatchVerdict,
    g: int,
    w: Seq<u8>,
    old_contents: Seq<u8>,
    old_cursor: usize,
    old_search: SearchState,
    r: Result<Option<ReturnState<O>>, StreamParserError>,
    new_contents: Seq<u8>,
    new_cursor: usize,
    new_search: SearchState,
) -> bool {
    match v {
        MatchVerdict::Matched { consumed } => {
            &&& r == Ok::<Option<ReturnState<O>>, StreamParserError>(None)
            &&& new_contents == old_contents
            &&& new_cursor == old_cursor + g + consumed
            &&& g + consumed <= w.len()
            &&& new_search == SearchState::StartFound
        },
        MatchVerdict::Incomplete => {
            &&& r == Ok::<Option<ReturnState<O>>, StreamParserError>(Some(ReturnState::NeedMoreData))
            &&& new_contents == old_contents
            &&& new_cursor == old_cursor
            &&& new_search == old_search
        },
        MatchVerdict::NoMatch => {
            &&& r == Ok::<Option<ReturnState<O>>, StreamParserError>(Some(ReturnState::NeedMoreData))
            &&& new_contents == Seq::<u8>::empty()
            &&& new_cursor == 0
            &&& new_search == SearchState::SearchForStart
        },
    }
}

/// Locate the next record by scanning for a start marker and then letting a
/// caller-supplied matcher confirm the structural prefix that follows it.
pub struct StartGroupByParser<'a, F> {
    /// The matcher which decides whether the cursor reached a group start
    pub parser: F,
    /// The marker bytes that open a group
    pub start_character: &'a [u8],
}

impl<'a, F: Fn(&[u8]) -> MatchVerdict + Copy> StartGroupByParser<'a, F> {
    /// The marker is non-empty and the matcher is callable on any window and
    /// never claims more bytes than the window holds.
    pub open spec fn matcher_ok(&self) -> bool {
        &&& self.start_character@.len() >= 1
        &&& matcher_wf(self.parser)
    }

    /// Scan `contents[cursor..]` for the first marker occurrence, then run
    /// the matcher on the window that starts there.
    ///
    /// Boundary correctness: when the marker occurs first at offset `g` and
    /// the matcher accepts `k` leading bytes there, the cursor is advanced
    /// by exactly `g + k` — the position a non-streaming scan of the same
    /// bytes would select — and the search phase becomes `StartFound`.
    /// When no marker occurs, every scanned byte is discarded and more data
    /// are requested; an incomplete match keeps the bytes for the next
    /// refill; a refused match discards the scanned bytes like a miss (even
    /// though a later genuine marker may sit in the same span: deliberate).
    pub fn search<B: Buffer, O>(
        &self,
        work_buffer: &mut B,
        status: &mut ParseStatus,
        cursor: &mut usize,
    ) -> (r: Result<Option<ReturnState<O>>, StreamParserError>)
        requires
            self.matcher_ok(),
            old(work_buffer).inv(),
            *old(cursor) <= old(work_buffer).contents().len(),
        ensures
            final(work_buffer).inv(),
            final(work_buffer).is_fixed() == old(work_buffer).is_fixed(),
            final(work_buffer).capacity() == old(work_buffer).capacity(),
            *final(cursor) <= final(work_buffer).contents().len(),
            final(status).data == old(status).data,
            ({
                let unchanged = final(work_buffer).contents() == old(work_buffer).contents()
                    && *final(cursor) >= *old(cursor);
                r == Ok::<Option<ReturnState<O>>, StreamParserError>(None) ==> unchanged
            }),
            (match r {
                Ok(Some(rs)) => rs matches ReturnState::NeedMoreData && ({
                    let b1 = final(work_buffer).contents();
                    let c1 = *final(cursor);
                    let kept = b1 == old(work_buffer).contents() && c1 == *old(cursor);
                    let discarded = b1 == Seq::<u8>::empty() && c1 == 0;
                    kept || discarded
                }),
                Ok(None) => true,
                Err(_) => false,
            }),
            ({
                let w = old(work_buffer).contents().skip(*old(cursor) as int);
                let m = self.start_character@;
                &&& (no_match_in(w, m) ==> {
                    &&& r == Ok::<Option<ReturnState<O>>, StreamParserError>(Some(ReturnState::NeedMoreData))
                    &&& final(work_buffer).contents() == Seq::<u8>::empty()
                    &&& *final(cursor) == 0
                    &&& final(status).search == SearchState::SearchForStart
                })
                &&& (forall|g: int|
                    first_match_at(w, m, g) ==> exists|v: MatchVerdict|
                        #[trigger] matcher_admits(self.parser, w.skip(g), v) && search_case(
                            v,
                            g,
                            w,
                            old(work_buffer).contents(),
                            *old(cursor),
                            old(status).search,
                            r,
                            final(work_buffer).contents(),
                            *final(cursor),
                            final(status).search,
                        ))
            }),
    {
        let len = work_buffer.data_len();
        let window = vstd::slice::slice_subrange(work_buffer.readable(), *cursor, len);
        let ghost w = old(work_buffer).contents().skip(*old(cursor) as int);
        proof {
            assert(window@ =~= w);
        }
        match find_subslice(window, self.start_character) {
            None => {
                work_buffer.clear();
                *cursor = 0;
                status.search = SearchState::SearchForStart;
                Ok(Some(ReturnState::NeedMoreData))
            },
            Some(g) => {
                let remain = vstd::slice::slice_subrange(window, g, window.len());
                proof {
                    assert(remain@ =~= w.skip(g as int));
                }
                let matcher = self.parser;
                let verdict = matcher(remain);
                proof {
                    assert(matcher_admits(self.parser, w.skip(g as int), verdict));
                    assert forall|g2: int| first_match_at(w, self.start_character@, g2)
                        implies g2 == g as int by {
                        lemma_first_match_unique(w, self.start_character@, g as int, g2);
                    }
                }
                match verdict {
                    MatchVerdict::Matched { consumed } => {
                        *cursor = *cursor + g + consumed;
                        status.search = SearchState::StartFound;
                        Ok(None)
                    },
                    MatchVerdict::Incomplete => Ok(Some(ReturnState::NeedMoreData)),
                    MatchVerdict::NoMatch => {
                        work_buffer.clear();
                        *cursor = 0;
                        status.search = SearchState::SearchForStart;
                        Ok(Some(ReturnState::NeedMoreData))
                    },
                }
            },
        }
    }
}

impl<'a, F: Fn(&[u8]) -> MatchVerdict + Copy> Heuristic for StartGroupByParser<'a, F> {
    open spec fn wf(&self) -> bool {
        self.matcher_ok()
    }

    fn apply<B: Buffer, O>(
        &mut self,
        work_buffer: &mut B,
        status: &mut ParseStatus,
        cursor: &mut usize,
    ) -> (r: Result<Option<ReturnState<O>>, StreamParserError>)
        ensures
            *final(self) == *old(self),
            ({
                let w = old(work_buffer).contents().skip(*old(cursor) as int);
                let m = old(self).start_character@;
                &&& (no_match_in(w, m) ==> {
                    &&& r == Ok::<Option<ReturnState<O>>, StreamParserError>(
                        Some(ReturnState::NeedMoreData),
                    )
                    &&& final(work_buffer).contents() == Seq::<u8>::empty()
                    &&& *final(cursor) == 0
                    &&& final(status).search == SearchState::SearchForStart
                })
                &&& (forall|g: int|
                    first_match_at(w, m, g) ==> exists|v: MatchVerdict|
                        #[trigger] matcher_admits(old(self).parser, w.skip(g), v) && search_case(
                            v,
                            g,
                            w,
                            old(work_buffer).contents(),
                            *old(cursor),
                            old(status).search,
                            r,
                            final(work_buffer).contents(),
                            *final(cursor),
                            final(status).search,
                        ))
            }),
    {
        self.search::<B, O>(work_buffer, status, cursor)
    }
}

} // verus!
