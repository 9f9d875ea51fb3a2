use media_graph::text::{chars_of, contains, holds_text};

#[test]
fn substring_in_the_middle_matches() {
    assert!(contains("Alan Moore, Dave Gibbons", "Moore"));
}

#[test]
fn substring_at_the_start_matches() {
    assert!(contains("Moore, Alan", "Moore"));
}

#[test]
fn substring_at_the_end_matches() {
    assert!(contains("Alan Moore", "Moore"));
}

#[test]
fn whole_text_matches_itself() {
    assert!(contains("Moore", "Moore"));
}

#[test]
fn absent_substring_does_not_match() {
    assert!(!contains("Alan Moore", "Gaiman"));
}

#[test]
fn matching_is_case_sensitive() {
    assert!(!contains("Alan Moore", "moore"));
    assert!(!contains("alan moore", "Moore"));
}

#[test]
fn empty_needle_matches_every_text() {
    assert!(contains("Alan Moore", ""));
    assert!(contains("", ""));
}

#[test]
fn needle_longer_than_text_does_not_match() {
    assert!(!contains("Ann", "Anna"));
    assert!(!contains("", "a"));
}

#[test]
fn partial_overlap_is_not_a_match() {
    assert!(!contains("aab", "abb"));
    assert!(contains("aaab", "aab"));
}

#[test]
fn letters_must_be_contiguous() {
    assert!(!contains("A. Moore", "AMoore"));
}

#[test]
fn matching_counts_characters_not_bytes() {
    assert!(contains("Hergé et Moebius", "é et M"));
    assert!(contains("手塚 治虫", "治虫"));
    assert!(!contains("Herge", "é"));
}

/// The match is by substring, not by whole name: a short name is found inside
/// a longer one. This is a known false positive of the matching policy.
#[test]
fn short_name_matches_inside_longer_name() {
    assert!(contains("Anna Smith", "Ann"));
}

#[test]
fn chars_of_lists_characters_in_order() {
    assert_eq!(chars_of("Moé"), vec!['M', 'o', 'é']);
    assert_eq!(chars_of(""), Vec::<char>::new());
}

#[test]
fn holds_text_finds_exact_entries_only() {
    let list = vec!["Ongoing".to_string(), "Ended".to_string()];
    assert!(holds_text(&list, &"Ended".to_string()));
    assert!(!holds_text(&list, &"ended".to_string()));
    assert!(!holds_text(&list, &"End".to_string()));
    assert!(!holds_text(&Vec::new(), &"Ended".to_string()));
}
