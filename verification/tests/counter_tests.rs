use text_counter::counter::{count_occurrences, count_occurrences_ci, count_pattern};

#[test]
fn counts_simple_occurrences() {
    assert_eq!(count_occurrences("cat cat dog", "cat"), 2);
}

#[test]
fn counting_is_non_overlapping() {
    assert_eq!(count_occurrences("aaa", "aa"), 1);
    assert_eq!(count_occurrences("aaaa", "aa"), 2);
    assert_eq!(count_occurrences("aaaaa", "aa"), 2);
}

#[test]
fn empty_pattern_counts_zero() {
    assert_eq!(count_occurrences("anything", ""), 0);
    assert_eq!(count_occurrences("", ""), 0);
}

#[test]
fn pattern_longer_than_text_counts_zero() {
    assert_eq!(count_occurrences("ab", "abc"), 0);
}

#[test]
fn case_sensitive_count_distinguishes_case() {
    assert_eq!(count_occurrences("Hello HELLO hello", "hello"), 1);
}

#[test]
fn case_insensitive_count_folds_case() {
    assert_eq!(count_occurrences_ci("Hello HELLO hello", "hello"), 3);
}

#[test]
fn case_insensitive_folds_pattern_too() {
    assert_eq!(count_occurrences_ci("hello hello", "HeLLo"), 2);
}

#[test]
fn count_pattern_selects_the_case_rule() {
    assert_eq!(count_pattern("Hello HELLO hello", "hello", false), 1);
    assert_eq!(count_pattern("Hello HELLO hello", "hello", true), 3);
}

#[test]
fn counts_multibyte_text() {
    assert_eq!(count_occurrences("früh früh spät", "früh"), 2);
    assert_eq!(count_occurrences_ci("FRÜH früh", "früh"), 2);
}

#[test]
fn adjacent_matches_all_count() {
    assert_eq!(count_occurrences("catcatcat", "cat"), 3);
}
