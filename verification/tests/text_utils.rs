use filesvc_rs::text::{contains_str, lines_of, str_ends_with, u64_to_decimal};

#[test]
fn decimal_rendering_of_small_and_large_numbers() {
    assert_eq!(u64_to_decimal(0), "0");
    assert_eq!(u64_to_decimal(7), "7");
    assert_eq!(u64_to_decimal(10), "10");
    assert_eq!(u64_to_decimal(12345), "12345");
    assert_eq!(u64_to_decimal(u64::MAX), "18446744073709551615");
}

#[test]
fn substring_search_finds_markers() {
    assert!(contains_str("a [Admin] b", "[Admin]"));
    assert!(!contains_str("a [Admin] b", "[Download]"));
    assert!(contains_str("", ""));
    assert!(!contains_str("", "x"));
    assert!(contains_str("xyz", ""));
    assert!(contains_str("xyz", "xyz"));
}

#[test]
fn suffix_test_matches_exact_endings() {
    assert!(str_ends_with("url [Admin]", " [Admin]"));
    assert!(!str_ends_with("url [Admin] ", " [Admin]"));
    assert!(!str_ends_with("short", "a longer suffix"));
    assert!(str_ends_with("anything", ""));
}

#[test]
fn line_splitting_follows_the_standard_rules() {
    assert_eq!(lines_of("a\nb\nc"), vec!["a", "b", "c"]);
    assert_eq!(lines_of("a\r\nb\r\n"), vec!["a", "b"]);
    assert_eq!(lines_of(""), Vec::<String>::new());
    assert_eq!(lines_of("\n"), vec![""]);
    assert_eq!(lines_of("no break"), vec!["no break"]);
    assert_eq!(lines_of("trailing\n"), vec!["trailing"]);
}
