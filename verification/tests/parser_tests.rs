use stream_parser::parsers::{parse_data, start_group_parenthesis};
use stream_parser::seeder::number_to_ascii;
use stream_parser::{MatchVerdict, ParseVerdict};

#[test]
fn test_number_to_ascii() {
    let result = number_to_ascii(&45);
    assert_eq!(vec![52, 53], result);
}

#[test]
fn number_to_ascii_covers_all_widths() {
    assert_eq!(vec![48], number_to_ascii(&0));
    assert_eq!(vec![57], number_to_ascii(&9));
    assert_eq!(vec![49, 48], number_to_ascii(&10));
    assert_eq!(vec![49, 48, 48], number_to_ascii(&100));
    assert_eq!(vec![50, 53, 53], number_to_ascii(&255));
}

#[test]
fn parse_data_reads_a_whole_group() {
    let r = parse_data(b"(1,2)");
    assert_eq!(
        r,
        ParseVerdict::Parsed {
            consumed: 5,
            value: vec![1, 2],
        }
    );
}

#[test]
fn parse_data_leaves_trailing_bytes() {
    let r = parse_data(b"(61,36,16,20,7)(62)");
    assert_eq!(
        r,
        ParseVerdict::Parsed {
            consumed: 15,
            value: vec![61, 36, 16, 20, 7],
        }
    );
}

#[test]
fn parse_data_is_incomplete_inside_a_group() {
    assert_eq!(parse_data(b""), ParseVerdict::Incomplete);
    assert_eq!(parse_data(b"("), ParseVerdict::Incomplete);
    assert_eq!(parse_data(b"(1"), ParseVerdict::Incomplete);
    assert_eq!(parse_data(b"(1,"), ParseVerdict::Incomplete);
    assert_eq!(parse_data(b"(1,2"), ParseVerdict::Incomplete);
}

#[test]
fn parse_data_rejects_malformed_groups() {
    assert_eq!(parse_data(b"x(1)"), ParseVerdict::Failed);
    assert_eq!(parse_data(b"()"), ParseVerdict::Failed);
    assert_eq!(parse_data(b"(a)"), ParseVerdict::Failed);
    assert_eq!(parse_data(b"(1,2,a,4)"), ParseVerdict::Failed);
    assert_eq!(parse_data(b"(1,2,3,(4,5,6),7)"), ParseVerdict::Failed);
    // An element must fit in one byte.
    assert_eq!(parse_data(b"(300)"), ParseVerdict::Failed);
}

#[test]
fn start_group_matcher_finds_the_first_parenthesis() {
    assert_eq!(
        start_group_parenthesis(b"noise(1"),
        MatchVerdict::Matched { consumed: 5 }
    );
    assert_eq!(
        start_group_parenthesis(b"(1,2)"),
        MatchVerdict::Matched { consumed: 0 }
    );
    // No parenthesis in sight: more data might still bring one.
    assert_eq!(start_group_parenthesis(b"noise"), MatchVerdict::Incomplete);
    assert_eq!(start_group_parenthesis(b""), MatchVerdict::Incomplete);
}
