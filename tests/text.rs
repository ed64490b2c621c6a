use waystation::text::{chars_of, contains_str, first_two_lines, string_of};

#[test]
fn lines_follow_str_lines() {
    let (a, b) = first_two_lines("one\r\ntwo\nthree");
    assert_eq!(a.as_deref(), Some("one"));
    assert_eq!(b.as_deref(), Some("two"));
    let (a, b) = first_two_lines("\n\nx");
    assert_eq!(a.as_deref(), Some(""));
    assert_eq!(b.as_deref(), Some(""));
    assert_eq!(first_two_lines(""), (None, None));
    assert_eq!(first_two_lines("solo\n"), (Some("solo".to_string()), None));
}

#[test]
fn substring_search() {
    assert!(contains_str("abcabd", "abd"));
    assert!(contains_str("abc", ""));
    assert!(!contains_str("ab", "abc"));
    assert!(!contains_str("aXbXc", "abc"));
}

#[test]
fn characters_and_slices() {
    assert_eq!(chars_of("héllo"), vec!['h', 'é', 'l', 'l', 'o']);
    assert_eq!(string_of("héllo", 1, 4), "éll");
}
