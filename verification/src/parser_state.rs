use vstd::prelude::*;

verus! {

/// Decision taken by the master parser at the previous iteration: whether the
/// bytes currently held in the work buffer may already allow a parsing
/// decision, or whether the source must be asked for more input first.
#[derive(Clone, Copy, Debug, PartialEq, Eq, Structural)]
pub enum ParsableState {
    /// The data in the work buffer are not enough to decide the parsing state
    NeedMoreData,
    /// The data in the work buffer may lead to a parsing decision
    MaybeParsable,
}

/// Commands whether the search for the start of a group must be run before the
/// grammar parser is invoked.
#[derive(Clone, Copy, Debug, PartialEq, Eq, Structural)]
pub enum SearchState {
    /// We are still searching for relevant data to parse
    SearchForStart,
    /// The start of relevant data to parse has been found
    StartFound,
}

/// The pair of phases that drives branch selection inside one parsing step.
#[derive(Clone, Copy, Debug, PartialEq, Eq, Structural)]
pub struct ParseStatus {
    /// Whether the boundary heuristic must still locate a start of record
    pub search: SearchState,
    /// Whether the buffered bytes may already be parsable
    pub data: ParsableState,
}

impl ParseStatus {
    /// Initial status of a fresh engine: no start located yet, and nothing
    /// buffered that could be parsed.
    pub fn initial() -> (r: ParseStatus)
        ensures
            r.search == SearchState::SearchForStart,
            r.data == ParsableState::NeedMoreData,
    {
        ParseStatus { search: SearchState::SearchForStart, data: ParsableState::NeedMoreData }
    }
}

} // verus!
