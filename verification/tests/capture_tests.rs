use pcre2::options::{Config, UNSET};
use pcre2::regex::{CaptureLocations, Captures, Match, Regex};

fn sample_regex(names: Vec<Option<String>>) -> Regex {
    Regex::from_parts("x".to_string(), Config::default(), names)
}

#[test]
fn match_reports_offsets_and_bytes() {
    let subject = b"hello world";
    let m = Match::new(subject, 6, 11);
    assert_eq!(m.start(), 6);
    assert_eq!(m.end(), 11);
    assert_eq!(m.as_pair(), (6, 11));
    assert_eq!(m.as_bytes(), b"world");
}

#[test]
fn match_round_trips_through_subject() {
    let subject = b"abcdef";
    let m = Match::new(subject, 2, 5);
    assert_eq!(m.as_bytes(), &subject[m.start()..m.end()]);
}

#[test]
fn empty_match_has_no_bytes() {
    let subject = b"abc";
    let m = Match::new(subject, 1, 1);
    assert_eq!(m.as_bytes(), b"");
}

#[test]
fn fresh_locations_are_all_unset() {
    let re = sample_regex(vec![None, Some("a".to_string())]);
    let locs = re.capture_locations();
    assert_eq!(locs.len(), 2);
    assert_eq!(locs.get(0), None);
    assert_eq!(locs.get(1), None);
    assert_eq!(locs.get(7), None);
}

#[test]
fn stored_offsets_are_read_back_per_group() {
    let re = sample_regex(vec![None, Some("a".to_string()), None]);
    let mut locs = re.capture_locations();
    assert_eq!(locs.len(), 3);
    locs.set_offsets(vec![0, 7, UNSET, UNSET, 3, 5]);
    assert_eq!(locs.get(0), Some((0, 7)));
    assert_eq!(locs.get(1), None);
    assert_eq!(locs.get(2), Some((3, 5)));
    assert_eq!(locs.get(3), None);
}

#[test]
fn half_unset_group_did_not_participate() {
    let re = sample_regex(vec![None, None]);
    let mut locs = re.capture_locations();
    locs.set_offsets(vec![1, 2, 4, UNSET]);
    assert_eq!(locs.get(1), None);
}

#[test]
fn repeated_reads_of_same_offsets_agree() {
    let re = sample_regex(vec![None, None]);
    let mut first = re.capture_locations();
    let mut second = re.capture_locations();
    first.set_offsets(vec![2, 6, 3, 4]);
    second.set_offsets(vec![2, 6, 3, 4]);
    for i in 0..3 {
        assert_eq!(first.get(i), second.get(i));
    }
}

#[test]
fn slots_within_accepts_well_formed_offsets() {
    let re = sample_regex(vec![None, None]);
    let mut locs = re.capture_locations();
    locs.set_offsets(vec![0, 5, UNSET, UNSET]);
    assert!(locs.slots_within(5));
    assert!(locs.slots_within(9));
    assert!(!locs.slots_within(4));
}

#[test]
fn slots_within_rejects_reversed_pair() {
    let re = sample_regex(vec![None, None]);
    let mut locs = re.capture_locations();
    locs.set_offsets(vec![5, 2, UNSET, UNSET]);
    assert!(!locs.slots_within(10));
}

#[test]
fn captures_expose_groups_by_index() {
    let subject = b"one two";
    let re = sample_regex(vec![None, Some("foo".to_string())]);
    let mut locs = re.capture_locations();
    locs.set_offsets(vec![0, 7, 4, 7]);
    assert!(locs.slots_within(subject.len()));
    let caps = Captures::new(subject, locs, re.capture_names().clone());
    assert_eq!(caps.len(), 2);
    assert_eq!(caps.get(0).map(|m| m.as_pair()), Some((0, 7)));
    assert_eq!(caps.get(1).map(|m| m.as_pair()), Some((4, 7)));
    assert_eq!(caps.get(1).map(|m| m.as_bytes().to_vec()), Some(b"two".to_vec()));
    assert!(caps.get(2).is_none());
}

#[test]
fn named_group_that_did_not_participate_reads_none() {
    // A named group `foo` at position 1 that sat out of the match: looking
    // it up by name finds nothing, while group 0 is the overall match.
    let subject = b"abc";
    let re = sample_regex(vec![None, Some("foo".to_string())]);
    let mut locs = re.capture_locations();
    locs.set_offsets(vec![0, 2, UNSET, UNSET]);
    let caps = Captures::new(subject, locs, re.capture_names().clone());
    assert!(caps.name("foo").is_none());
    assert_eq!(caps.get(0).map(|m| m.as_pair()), Some((0, 2)));
}

#[test]
fn named_group_lookup_finds_its_offsets() {
    let subject = b"abcd";
    let re = sample_regex(vec![None, Some("foo".to_string())]);
    let mut locs = re.capture_locations();
    locs.set_offsets(vec![0, 4, 1, 3]);
    let caps = Captures::new(subject, locs, re.capture_names().clone());
    assert_eq!(caps.name("foo").map(|m| m.as_pair()), Some((1, 3)));
    assert!(caps.name("bar").is_none());
}

#[test]
fn duplicate_name_resolves_to_last_declaration() {
    let re = sample_regex(vec![
        None,
        Some("n".to_string()),
        Some("n".to_string()),
    ]);
    assert_eq!(re.capture_name_index("n"), Some(2));
    assert_eq!(re.capture_name_index("m"), None);
}

#[test]
fn cloned_locations_have_the_same_shape_and_contents() {
    let re = sample_regex(vec![None, None]);
    let mut locs = re.capture_locations();
    locs.set_offsets(vec![1, 4, UNSET, UNSET]);
    let copy = locs.clone();
    assert_eq!(copy.len(), locs.len());
    assert_eq!(copy.get(0), Some((1, 4)));
    assert_eq!(copy.get(1), None);
}

#[test]
fn captures_count_groups_like_their_pattern() {
    let subject = b"xy";
    let re = sample_regex(vec![None, Some("a".to_string()), None]);
    let mut locs = re.capture_locations();
    locs.set_offsets(vec![0, 1, UNSET, UNSET, UNSET, UNSET]);
    let caps = Captures::new(subject, locs, re.capture_names().clone());
    assert_eq!(caps.len(), re.captures_len());
    assert_eq!(caps.len(), 3);
}

#[test]
fn regex_exposes_its_parts() {
    let names = vec![None, Some("g".to_string())];
    let re = Regex::from_parts("a(b)".to_string(), Config::default(), names.clone());
    assert_eq!(re.as_str().as_str(), "a(b)");
    assert_eq!(re.capture_names(), &names);
    assert_eq!(re.captures_len(), 2);
    assert_eq!(re.capture_name_index("g"), Some(1));
    assert_eq!(re.match_flags(), 0);
}

#[test]
fn a_plain_search_session_wraps_the_reported_offsets() {
    let subject = b"abcdef";
    let m = pcre2::regex::search_match(subject, 1, 2, 5).unwrap().unwrap();
    assert_eq!(m.as_pair(), (2, 5));
    assert_eq!(m.as_bytes(), b"cde");
    assert!(pcre2::regex::search_match(subject, -1, 0, 0).unwrap().is_none());
    let err = pcre2::regex::search_match(subject, -2, 0, 0).unwrap_err();
    assert_eq!(err.code(), -2);
}

#[test]
fn a_capture_search_session_stores_offsets_only_on_a_match() {
    let subject = b"abcdef";
    let re = sample_regex(vec![None, None]);
    let mut locs = re.capture_locations();

    // "No match" and errors leave the slots as they were.
    assert!(locs.record_search(subject, -1, vec![9, 9, 9, 9]).unwrap().is_none());
    assert_eq!(locs.get(0), None);
    assert!(locs.record_search(subject, -2, vec![9, 9, 9, 9]).is_err());
    assert_eq!(locs.get(0), None);

    // A match takes the engine's ovector over and hands back group 0.
    let m = locs.record_search(subject, 2, vec![1, 4, 2, 3]).unwrap().unwrap();
    assert_eq!(m.as_pair(), (1, 4));
    assert_eq!(locs.get(0), Some((1, 4)));
    assert_eq!(locs.get(1), Some((2, 3)));
}
