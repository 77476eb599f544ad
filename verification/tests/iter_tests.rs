use pcre2::error::{match_outcome, Error, ErrorKind};
use pcre2::iter::{CaptureMatches, Matches, Step};
use pcre2::options::Config;
use pcre2::regex::Regex;

fn sample_regex(pattern: &str) -> Regex {
    Regex::from_parts(pattern.to_string(), Config::default(), vec![None])
}

/// Run the iteration protocol over `subject`, answering each search from
/// `outcomes` the way the engine would: `outcomes[k]` is what a search
/// starting at offset `k` finds. Returns the matches handed out.
fn drive(re: &Regex, subject: &[u8], outcomes: &[Option<(usize, usize)>]) -> Vec<(usize, usize)> {
    let mut cursor = Matches::new(re, subject);
    let mut found = Vec::new();
    let mut rounds = 0;
    while let Some(at) = cursor.search_start() {
        rounds += 1;
        assert!(rounds <= subject.len() + 2, "the protocol must terminate");
        match cursor.record(outcomes[at]) {
            Step::Found { start, end } => found.push((start, end)),
            Step::Skipped => {}
            Step::Done => break,
        }
    }
    found
}

#[test]
fn star_pattern_yields_one_match_not_a_glued_empty_one() {
    // What the engine finds for `a*` in "aaa": the whole subject from
    // offset 0, and an empty match at offset 3.
    let re = sample_regex("a*");
    let subject = b"aaa";
    let outcomes = [Some((0, 3)), Some((1, 3)), Some((2, 3)), Some((3, 3))];
    assert_eq!(drive(&re, subject, &outcomes), vec![(0, 3)]);
}

#[test]
fn star_pattern_keeps_detached_empty_match() {
    // What the engine finds for `a*` in "aaab": the run of `a`s, an empty
    // match before `b`, and an empty match at the end. The empty match at 3
    // is glued to the previous match and suppressed; the one at 4 is not.
    let re = sample_regex("a*");
    let subject = b"aaab";
    let outcomes = [Some((0, 3)), Some((1, 3)), Some((2, 3)), Some((3, 3)), Some((4, 4))];
    assert_eq!(drive(&re, subject, &outcomes), vec![(0, 3), (4, 4)]);
}

#[test]
fn empty_pattern_yields_once_per_boundary_then_stops() {
    // An empty pattern matches at every one of the N+1 boundaries of a
    // subject of length N, and the stream still terminates.
    let re = sample_regex("");
    let subject = b"abc";
    let outcomes = [Some((0, 0)), Some((1, 1)), Some((2, 2)), Some((3, 3))];
    let found = drive(&re, subject, &outcomes);
    assert_eq!(found, vec![(0, 0), (1, 1), (2, 2), (3, 3)]);
    assert_eq!(found.len(), subject.len() + 1);
}

#[test]
fn matches_are_ordered_and_non_overlapping() {
    let re = sample_regex("ab");
    let subject = b"ababab";
    let outcomes = [
        Some((0, 2)),
        Some((2, 4)),
        Some((2, 4)),
        Some((4, 6)),
        Some((4, 6)),
        None,
        None,
    ];
    let found = drive(&re, subject, &outcomes);
    assert_eq!(found, vec![(0, 2), (2, 4), (4, 6)]);
    for pair in found.windows(2) {
        assert!(pair[0].1 <= pair[1].0);
    }
}

#[test]
fn no_match_ends_the_stream() {
    let re = sample_regex("z");
    let subject = b"abc";
    let mut cursor = Matches::new(&re, subject);
    assert_eq!(cursor.search_start(), Some(0));
    assert!(matches!(cursor.record(None), Step::Done));
    // The floor did not move; a caller who asks again searches again, as
    // the engine will again find nothing.
    assert_eq!(cursor.search_start(), Some(0));
}

#[test]
fn capture_cursor_follows_the_same_protocol() {
    let re = sample_regex("a*");
    let subject = b"aaa";
    let mut cursor = CaptureMatches::new(&re, subject);
    assert_eq!(cursor.search_start(), Some(0));
    assert!(matches!(cursor.record(Some((0, 3))), Step::Found { start: 0, end: 3 }));
    assert_eq!(cursor.search_start(), Some(3));
    assert!(matches!(cursor.record(Some((3, 3))), Step::Skipped));
    assert_eq!(cursor.search_start(), None);
}

#[test]
fn cursor_remembers_regex_and_subject() {
    let re = sample_regex("a");
    let subject = b"abc";
    let cursor = Matches::new(&re, subject);
    assert_eq!(cursor.regex().as_str().as_str(), "a");
    assert_eq!(cursor.subject(), subject);
}

#[test]
fn positive_return_code_is_a_match() {
    assert_eq!(match_outcome(1).unwrap(), true);
    assert_eq!(match_outcome(5).unwrap(), true);
}

#[test]
fn nomatch_code_is_a_normal_failed_search() {
    assert_eq!(match_outcome(-1).unwrap(), false);
}

#[test]
fn other_codes_are_errors() {
    let err = match_outcome(-2).unwrap_err();
    assert_eq!(err.kind(), ErrorKind::Match);
    assert_eq!(err.code(), -2);
    assert_eq!(err.offset(), None);
    let err = match_outcome(0).unwrap_err();
    assert_eq!(err.code(), 0);
}

#[test]
fn error_constructors_record_phase_code_and_offset() {
    let e = Error::compile(142, 7);
    assert_eq!(e.kind(), ErrorKind::Compile);
    assert_eq!(e.code(), 142);
    assert_eq!(e.offset(), Some(7));
    let e = Error::jit(-48);
    assert_eq!(e.kind(), ErrorKind::Jit);
    assert_eq!(e.code(), -48);
    assert_eq!(e.offset(), None);
    let e = Error::matching(-21);
    assert_eq!(e.kind(), ErrorKind::Match);
    assert_eq!(e.code(), -21);
    assert_eq!(e.offset(), None);
}
