use vstd::prelude::*;

use crate::traits::{matcher_wf, parser_wf, MatchVerdict, ParseVerdict};

verus! {

/// ASCII decimal digit.
pub open spec fn is_ascii_digit(b: u8) -> bool {
    48 <= b <= 57
}

/// Length of the maximal digit run in `s` starting at `i`.
pub open spec fn digit_run(s: Seq<u8>, i: int) -> nat
    decreases s.len() - i,
    when 0 <= i <= s.len()
{
    if i < s.len() && is_ascii_digit(s[i]) {
        (1 + digit_run(s, i + 1)) as nat
    } else {
        0
    }
}

/// Decimal value of the digits `s[i..j]`, folded left to right and
/// saturated at 300 as soon as it exceeds 255: a group element must fit in
/// one byte, and every overflow is treated alike.
pub open spec fn digits_value(s: Seq<u8>, i: int, j: int) -> int
    decreases j - i,
    when i <= j
{
    if j <= i {
        0
    } else {
        let p = digits_value(s, i, j - 1);
        let d = s[j - 1] - 48;
        if p * 10 + d > 255 {
            300
        } else {
            p * 10 + d
        }
    }
}

/// A digit run is exactly a stretch of digits followed by the end of the
/// bytes or a non-digit.
proof fn lemma_digit_run_chars(s: Seq<u8>, i: int, k: int)
    requires
        0 <= i <= k <= s.len(),
        forall|j: int| i <= j < k ==> is_ascii_digit(#[trigger] s[j]),
        k == s.len() || !is_ascii_digit(s[k]),
    ensures
        digit_run(s, i) == k - i,
    decreases k - i,
{
    if i < k {
        lemma_digit_run_chars(s, i + 1, k);
    }
}

/// Progress of the scan over the tail of a comma-separated list.
pub enum ListScan {
    /// The bytes end inside the list: no decision yet.
    Incomplete,
    /// The list ends just before position `at`, holding `values`.
    Done { at: int, values: Seq<u8> },
}

/// Continue a comma-separated list of byte-sized numbers at position `j`
/// (just after a parsed element), with `acc` the values parsed so far.
///
/// A separator followed by a valid element extends the list; digits that
/// run to the end of the bytes leave the decision open; anything else ends
/// the list at `j` without consuming the separator, exactly as a
/// backtracking list parser would.
pub open spec fn list_resume(s: Seq<u8>, j: int, acc: Seq<u8>) -> ListScan
    decreases s.len() - j,
    when 0 <= j < s.len()
{
    if s[j] != 44 {
        ListScan::Done { at: j, values: acc }
    } else {
        let i = j + 1;
        let k = digit_run(s, i) as int;
        if i + k >= s.len() {
            ListScan::Incomplete
        } else if k == 0 || digits_value(s, i, i + k) > 255 {
            ListScan::Done { at: j, values: acc }
        } else {
            list_resume(s, i + k, acc.push(digits_value(s, i, i + k) as u8))
        }
    }
}

/// The list scan never moves backwards and ends inside the bytes.
proof fn lemma_list_resume_bounds(s: Seq<u8>, j: int, acc: Seq<u8>)
    requires
        0 <= j < s.len(),
    ensures
        list_resume(s, j, acc) matches ListScan::Done { at, .. } ==> j <= at < s.len(),
    decreases s.len() - j,
{
    if s[j] == 44 {
        let i = j + 1;
        let k = digit_run(s, i) as int;
        if i + k < s.len() && k != 0 && digits_value(s, i, i + k) <= 255 {
            lemma_list_resume_bounds(s, i + k, acc.push(digits_value(s, i, i + k) as u8));
        }
    }
}

/// Result of parsing one parenthesised group of byte-sized numbers.
pub enum GroupParse {
    /// A group was read from the first `consumed` bytes; `values` are its
    /// numbers in order.
    Parsed { consumed: int, values: Seq<u8> },
    /// The bytes end inside the group: no decision yet.
    Incomplete,
    /// No group starts at the head of the bytes.
    Failed,
}

/// Streaming parse of one group `( n , n , ... )` at the head of `s`: the
/// reference for [`parse_data`]. The bytes ending inside a possible group
/// leave the decision open (`Incomplete`); a structural mismatch is
/// `Failed`.
pub open spec fn spec_parse_data(s: Seq<u8>) -> GroupParse {
    if s.len() == 0 {
        GroupParse::Incomplete
    } else if s[0] != 40 {
        GroupParse::Failed
    } else {
        let k = digit_run(s, 1) as int;
        if 1 + k >= s.len() {
            GroupParse::Incomplete
        } else if k == 0 || digits_value(s, 1, 1 + k) > 255 {
            GroupParse::Failed
        } else {
            match list_resume(s, 1 + k, seq![digits_value(s, 1, 1 + k) as u8]) {
                ListScan::Incomplete => GroupParse::Incomplete,
                ListScan::Done { at, values } => if s[at] == 41 {
                    GroupParse::Parsed { consumed: at + 1, values }
                } else {
                    GroupParse::Failed
                },
            }
        }
    }
}

/// How one attempt at a number reads at position `i`.
enum NumScan {
    /// Digits run to the end of the bytes: no decision yet.
    RunsToEnd,
    /// No digit here, or a value that does not fit in one byte.
    Bad,
    /// A number worth `value`, ending just before `end`.
    Value { end: usize, value: u8 },
}

/// Scan the digit run at position `i` and compute its value.
fn scan_number(input: &[u8], i: usize) -> (r: NumScan)
    requires
        i <= input@.len(),
    ensures
        ({
            let k = digit_run(input@, i as int);
            match r {
                NumScan::RunsToEnd => i + k == input@.len(),
                NumScan::Bad => i + k < input@.len() && (k == 0 || digits_value(
                    input@,
                    i as int,
                    i + k,
                ) > 255),
                NumScan::Value { end, value } => {
                    &&& i + k < input@.len()
                    &&& k > 0
                    &&& end == i + k
                    &&& digits_value(input@, i as int, i + k) <= 255
                    &&& value == digits_value(input@, i as int, i + k)
                },
            }
        }),
{
    let n = input.len();
    let mut end: usize = i;
    while end < n && input[end] >= 48 && input[end] <= 57
        invariant
            i <= end <= n,
            n == input@.len(),
            forall|j: int| i <= j < end ==> is_ascii_digit(#[trigger] input@[j]),
        decreases n - end,
    {
        end += 1;
    }
    proof {
        lemma_digit_run_chars(input@, i as int, end as int);
    }
    if end == n {
        return NumScan::RunsToEnd;
    }
    if end == i {
        return NumScan::Bad;
    }
    let mut acc: u32 = 0;
    let mut t: usize = i;
    while t < end
        invariant
            i <= t <= end <= n,
            n == input@.len(),
            forall|j: int| i <= j < end ==> is_ascii_digit(#[trigger] input@[j]),
            acc == digits_value(input@, i as int, t as int),
            acc <= 300,
        decreases end - t,
    {
        let d = (input[t] - 48) as u32;
        acc = if acc * 10 + d > 255 {
            300
        } else {
            acc * 10 + d
        };
        t += 1;
    }
    if acc > 255 {
        NumScan::Bad
    } else {
        NumScan::Value { end, value: acc as u8 }
    }
}

/// Parse one parenthesised, comma-separated group of byte-sized numbers at
/// the head of the bytes, with streaming semantics: bytes that end inside a
/// possible group ask for more data rather than failing.
///
/// This is the grammar of the worked examples and tests; the engine itself
/// treats it as one opaque parser among others.
pub fn parse_data(input: &[u8]) -> (r: ParseVerdict<Vec<u8>>)
    ensures
        (r matches ParseVerdict::Parsed { consumed, .. } ==> consumed <= input@.len()),
        ({
            match spec_parse_data(input@) {
                GroupParse::Parsed { consumed, values } => (r matches ParseVerdict::Parsed {
                    consumed: c,
                    value: v,
                } && c == consumed && v@ == values),
                GroupParse::Incomplete => r is Incomplete,
                GroupParse::Failed => r is Failed,
            }
        }),
{
    let n = input.len();
    if n == 0 {
        return ParseVerdict::Incomplete;
    }
    if input[0] != 40 {
        return ParseVerdict::Failed;
    }
    let mut values: Vec<u8> = Vec::new();
    let mut j: usize;
    match scan_number(input, 1) {
        NumScan::RunsToEnd => {
            return ParseVerdict::Incomplete;
        },
        NumScan::Bad => {
            return ParseVerdict::Failed;
        },
        NumScan::Value { end, value } => {
            values.push(value);
            j = end;
        },
    }
    while j < n && input[j] == 44
        invariant
            0 < j < n,
            n == input@.len(),
            spec_parse_data(input@) == (match list_resume(input@, j as int, values@) {
                ListScan::Incomplete => GroupParse::Incomplete,
                ListScan::Done { at, values: vals } => if input@[at] == 41 {
                    GroupParse::Parsed { consumed: at + 1, values: vals }
                } else {
                    GroupParse::Failed
                },
            }),
        ensures
            0 < j < n,
            input@[j as int] != 44 || (list_resume(input@, j as int, values@) matches
                ListScan::Done {
                at,
                values: vals,
            } && at == j && vals == values@),
            spec_parse_data(input@) == (match list_resume(input@, j as int, values@) {
                ListScan::Incomplete => GroupParse::Incomplete,
                ListScan::Done { at, values: vals } => if input@[at] == 41 {
                    GroupParse::Parsed { consumed: at + 1, values: vals }
                } else {
                    GroupParse::Failed
                },
            }),
        decreases n - j,
    {
        match scan_number(input, j + 1) {
            NumScan::RunsToEnd => {
                return ParseVerdict::Incomplete;
            },
            NumScan::Bad => {
                proof {
                    assert(list_resume(input@, j as int, values@) == ListScan::Done {
                        at: j as int,
                        values: values@,
                    });
                }
                break ;
            },
            NumScan::Value { end, value } => {
                proof {
                    assert(list_resume(input@, j as int, values@) == list_resume(
                        input@,
                        end as int,
                        values@.push(value),
                    ));
                    lemma_list_resume_bounds(input@, end as int, values@.push(value));
                }
                values.push(value);
                j = end;
            },
        }
    }
    proof {
        lemma_list_resume_bounds(input@, j as int, values@);
    }
    if input[j] == 41 {
        ParseVerdict::Parsed { consumed: j + 1, value: values }
    } else {
        ParseVerdict::Failed
    }
}

/// No opening parenthesis occurs in `s`.
pub open spec fn no_paren_in(s: Seq<u8>) -> bool {
    forall|j: int| 0 <= j < s.len() ==> s[j] != 40
}

/// The first opening parenthesis of `s` sits at index `g`.
pub open spec fn first_paren_at(s: Seq<u8>, g: int) -> bool {
    &&& 0 <= g < s.len()
    &&& s[g] == 40
    &&& forall|j: int| 0 <= j < g ==> s[j] != 40
}

/// Match everything up to the first opening parenthesis, with streaming
/// semantics: when no parenthesis is in sight yet, ask for more data.
///
/// As the prefix matcher of a start-group heuristic it consumes the bytes
/// before the marker; on a window that already begins with the marker it
/// consumes nothing.
pub fn start_group_parenthesis(input: &[u8]) -> (r: MatchVerdict)
    ensures
        no_paren_in(input@) ==> r == MatchVerdict::Incomplete,
        (forall|g: int|
            first_paren_at(input@, g) ==> r == (MatchVerdict::Matched { consumed: g as usize })),
        (r matches MatchVerdict::Matched { consumed } ==> first_paren_at(input@, consumed as int)),
{
    let n = input.len();
    let mut g: usize = 0;
    while g < n
        invariant
            g <= n,
            n == input@.len(),
            forall|j: int| 0 <= j < g ==> input@[j] != 40,
        decreases n - g,
    {
        if input[g] == 40 {
            return MatchVerdict::Matched { consumed: g };
        }
        g += 1;
    }
    MatchVerdict::Incomplete
}

/// The grammar of [`parse_data`] is a well-formed engine parser: it accepts
/// any window, and a produced record never claims more bytes than the
/// window holds. Callers of the engines discharge their `parser_wf`
/// obligation with this.
pub proof fn lemma_parse_data_wf()
    ensures
        parser_wf(parse_data),
{
    assert forall|s: &[u8], v: ParseVerdict<Vec<u8>>| #[trigger] call_ensures(
        parse_data,
        (s,),
        v,
    ) implies (v matches ParseVerdict::Parsed { consumed, .. } ==> consumed <= s@.len()) by {}
}

/// The matcher of [`start_group_parenthesis`] is a well-formed start-group
/// matcher: it accepts any window, and a match never consumes more bytes
/// than the window holds. Callers of the heuristic discharge their
/// `matcher_wf` obligation with this.
pub proof fn lemma_start_group_parenthesis_wf()
    ensures
        matcher_wf(start_group_parenthesis),
{
    assert forall|s: &[u8], v: MatchVerdict| #[trigger] call_ensures(
        start_group_parenthesis,
        (s,),
        v,
    ) implies (v matches MatchVerdict::Matched { consumed } ==> consumed <= s@.len()) by {}
}

} // verus!
