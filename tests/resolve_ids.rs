use blaze::error::BlazeError;
use blaze::resolve::{resolve_card_id, starts_with, FULL_ID_LEN};

fn ids(list: &[&str]) -> Vec<String> {
    list.iter().map(|s| s.to_string()).collect()
}

#[test]
fn ambiguous_prefix_reports_match_count() {
    let candidates = ids(&["abc111", "abc222", "xyz999"]);
    match resolve_card_id("abc", &candidates) {
        Err(BlazeError::Ambiguous { prefix, count }) => {
            assert_eq!(prefix, "abc");
            assert_eq!(count, 2);
        }
        other => panic!("expected Ambiguous, got {:?}", other),
    }
}

#[test]
fn unique_prefix_resolves_to_full_id() {
    let candidates = ids(&["abc111", "abc222", "xyz999"]);
    assert_eq!(resolve_card_id("xyz", &candidates), Ok("xyz999".to_string()));
}

#[test]
fn unknown_prefix_is_not_found() {
    let candidates = ids(&["abc111", "abc222", "xyz999"]);
    assert_eq!(
        resolve_card_id("qqq", &candidates),
        Err(BlazeError::NotFound("qqq".to_string()))
    );
}

#[test]
fn full_length_input_is_returned_unchanged() {
    let full = "0123456789abcdef0123456789abcdef0123";
    assert_eq!(full.chars().count(), FULL_ID_LEN);
    assert_eq!(resolve_card_id(full, &Vec::new()), Ok(full.to_string()));
    let longer = format!("{}-extra", full);
    assert_eq!(resolve_card_id(&longer, &ids(&["abc"])), Ok(longer.clone()));
}

#[test]
fn empty_candidate_list_is_not_found() {
    assert_eq!(
        resolve_card_id("ab", &Vec::new()),
        Err(BlazeError::NotFound("ab".to_string()))
    );
}

#[test]
fn empty_prefix_matches_every_candidate() {
    match resolve_card_id("", &ids(&["a1", "b2", "c3"])) {
        Err(BlazeError::Ambiguous { count, .. }) => assert_eq!(count, 3),
        other => panic!("expected Ambiguous, got {:?}", other),
    }
    assert_eq!(resolve_card_id("", &ids(&["only"])), Ok("only".to_string()));
}

#[test]
fn exact_short_id_counts_as_prefix() {
    let candidates = ids(&["abc", "abcd"]);
    match resolve_card_id("abc", &candidates) {
        Err(BlazeError::Ambiguous { count, .. }) => assert_eq!(count, 2),
        other => panic!("expected Ambiguous, got {:?}", other),
    }
    assert_eq!(resolve_card_id("abcd", &candidates), Ok("abcd".to_string()));
}

#[test]
fn prefix_test_on_characters() {
    assert!(starts_with("abcdef", "abc"));
    assert!(starts_with("abc", ""));
    assert!(!starts_with("ab", "abc"));
    assert!(!starts_with("xbc", "abc"));
    assert!(starts_with("ééa", "éé"));
}
