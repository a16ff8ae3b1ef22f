use std::time::Duration;
use yamori::outcome::{DiffLine, DiffTag, TestResult};
use yamori::report::{command_line, in_actual, in_expected, join, list_changes, list_line, marker};

fn line(tag: DiffTag, content: &str) -> DiffLine {
    DiffLine { tag, content: content.to_string() }
}

#[test]
fn joining_puts_the_separator_between() {
    let parts = vec!["a".to_string(), "b".to_string(), "".to_string(), "c".to_string()];
    assert_eq!(join(&parts, " "), "a b  c");
    assert_eq!(join(&parts[..1], "; "), "a");
    assert_eq!(join(&parts[..0], "; "), "");
    assert_eq!(join(&parts[..2], "; "), "a; b");
}

#[test]
fn command_line_is_command_and_arguments() {
    let mut result = TestResult {
        name: "n".to_string(),
        success: true,
        actual_output: String::new(),
        diff: None,
        command: "echo".to_string(),
        args: vec!["hello".to_string(), "world".to_string()],
        input: None,
        execution_time: Duration::ZERO,
        is_release: false,
        build_commands: None,
    };
    assert_eq!(command_line(&result), "echo hello world");
    result.args.clear();
    assert_eq!(command_line(&result), "echo ");
}

#[test]
fn markers_tell_the_sides_apart() {
    assert_eq!(marker(DiffTag::Delete), '-');
    assert_eq!(marker(DiffTag::Insert), '+');
    assert_eq!(marker(DiffTag::Equal), ' ');
    assert!(in_expected(DiffTag::Delete));
    assert!(in_expected(DiffTag::Equal));
    assert!(!in_expected(DiffTag::Insert));
    assert!(in_actual(DiffTag::Insert));
    assert!(in_actual(DiffTag::Equal));
    assert!(!in_actual(DiffTag::Delete));
}

#[test]
fn listed_lines_carry_their_marker() {
    assert_eq!(list_line(&line(DiffTag::Delete, "hi")), "- hi");
    assert_eq!(list_line(&line(DiffTag::Insert, "bye\n")), "+ bye\n");
    assert_eq!(list_line(&line(DiffTag::Equal, "same")), "  same");
}

#[test]
fn only_changes_are_listed() {
    let lines = vec![
        line(DiffTag::Equal, "a\n"),
        line(DiffTag::Delete, "b\n"),
        line(DiffTag::Insert, "B\n"),
        line(DiffTag::Equal, "c\n"),
    ];
    assert_eq!(list_changes(&lines), vec!["- b\n".to_string(), "+ B\n".to_string()]);
    assert!(list_changes(&Vec::new()).is_empty());
}
