use yamori::compare::compare;
use yamori::text::{find_from, same_text, to_chars};

#[test]
fn trailing_newline_does_not_matter() {
    assert!(compare("abc\n", "abc"));
}

#[test]
fn inner_whitespace_matters() {
    assert!(!compare("a b", "ab"));
}

#[test]
fn whitespace_at_both_ends_is_set_aside() {
    assert!(compare("  \t hi there \r\n\n", "hi there"));
    assert!(compare("hi", "\n hi"));
    assert!(compare("", "   "));
    assert!(compare(" \u{a0}x\u{3000}", "x"));
}

#[test]
fn different_text_disagrees() {
    assert!(!compare("bye\n", "hi"));
    assert!(!compare("", "x"));
    assert!(!compare("line one\nline two", "line one\n line two"));
    assert!(!compare("abc", "abcd"));
}

#[test]
fn lines_inside_are_compared_as_they_are() {
    assert!(compare("a\nb\n", "a\nb"));
    assert!(!compare("a\n\nb", "a\nb"));
}

#[test]
fn search_finds_the_leftmost_match() {
    let hay = to_chars("abcabc");
    assert_eq!(find_from(&hay, &to_chars("bc"), 0), Some(1));
    assert_eq!(find_from(&hay, &to_chars("bc"), 2), Some(4));
    assert_eq!(find_from(&hay, &to_chars("bc"), 5), None);
    assert_eq!(find_from(&hay, &to_chars("x"), 0), None);
    assert_eq!(find_from(&hay, &to_chars("abcabcabc"), 0), None);
    assert_eq!(find_from(&hay, &to_chars(""), 6), Some(6));
    assert_eq!(find_from(&hay, &to_chars("a"), 7), None);
}

#[test]
fn texts_are_equal_by_their_characters() {
    assert!(same_text("yaml", "yaml"));
    assert!(!same_text("yaml", "yml"));
    assert!(!same_text("yaml", "YAML"));
    assert!(same_text("", ""));
}
