use snail::format::DIFF_CONTEXT_LINES;
use snail::{format_snail_source, unified_diff};

#[test]
fn formats_trailing_whitespace_and_newline() {
    let input = "value = 1  \nnext_line\t\t";
    let formatted = format_snail_source(input);

    assert_eq!(formatted, "value = 1\nnext_line\n");
}

#[test]
fn format_keeps_empty_source_empty() {
    assert_eq!(format_snail_source(""), "");
}

#[test]
fn format_keeps_a_lone_newline() {
    assert_eq!(format_snail_source("\n"), "\n");
}

#[test]
fn format_drops_carriage_returns_of_line_endings() {
    assert_eq!(format_snail_source("a = 1 \r\nb\r\n"), "a = 1\nb\n");
}

#[test]
fn format_keeps_blank_lines_and_inner_spaces() {
    assert_eq!(format_snail_source("x  =  1\n\n\ty\t\n"), "x  =  1\n\n\ty\n");
}

#[test]
fn format_is_stable_on_formatted_text() {
    let once = format_snail_source("if x {  \n  print(x)\t\n}");
    assert_eq!(once, "if x {\n  print(x)\n}\n");
    assert_eq!(format_snail_source(&once), once);
}

#[test]
fn unified_diff_names_the_file_and_the_changes() {
    let diff = unified_diff("a = 1  \n", "a = 1\n", "script.snail").unwrap();
    assert!(diff.starts_with("--- script.snail\n+++ script.snail\n"));
    assert!(diff.contains("-a = 1  \n"));
    assert!(diff.contains("+a = 1\n"));
    assert_eq!(DIFF_CONTEXT_LINES, 3);
}

#[test]
fn unified_diff_of_equal_texts_is_empty() {
    let diff = unified_diff("a\n", "a\n", "same.snail").unwrap();
    assert_eq!(diff, "");
}
