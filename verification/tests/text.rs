use joblode::text::{decimal, eq_ignore_ascii_case, is_blank, join_strings, str_eq, trim_end_char};

#[test]
fn decimal_renders_without_leading_zeros() {
    assert_eq!(decimal(0), "0");
    assert_eq!(decimal(7), "7");
    assert_eq!(decimal(50), "50");
    assert_eq!(decimal(1000), "1000");
    assert_eq!(decimal(usize::MAX), usize::MAX.to_string());
}

#[test]
fn ascii_case_is_ignored_only_for_ascii() {
    assert!(eq_ignore_ascii_case("Gemini", "gEMINI"));
    assert!(!eq_ignore_ascii_case("gemini", "gemin"));
    assert!(!eq_ignore_ascii_case("É", "é"));
    assert!(eq_ignore_ascii_case("", ""));
}

#[test]
fn trailing_characters_are_stripped_repeatedly() {
    assert_eq!(trim_end_char("a///", '/'), "a");
    assert_eq!(trim_end_char("///", '/'), "");
    assert_eq!(trim_end_char("a/b", '/'), "a/b");
}

#[test]
fn blank_means_only_whitespace() {
    assert!(is_blank(""));
    assert!(is_blank(" \t\n\u{3000}"));
    assert!(!is_blank(" x "));
}

#[test]
fn joins_with_separators_between() {
    let parts = vec!["a".to_string(), "b".to_string(), "c".to_string()];
    assert_eq!(join_strings(&parts, " AND "), "a AND b AND c");
    assert_eq!(join_strings(&Vec::new(), ", "), "");
    assert_eq!(join_strings(&vec!["x".to_string()], ", "), "x");
}

#[test]
fn string_slices_compare_by_characters() {
    assert!(str_eq("http", "http"));
    assert!(!str_eq("http", "https"));
    assert!(!str_eq("HTTP", "http"));
}
