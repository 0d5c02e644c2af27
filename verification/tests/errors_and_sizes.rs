use snail::ast::SourceSpan;
use snail::source_pos::{error_with_span, span_from_offset};
use snail::{LowerError, ParseError, Size, SnailError, SourcePos};

#[test]
fn parse_error_without_place_is_its_message() {
    let err = ParseError::new("bad token");
    assert_eq!(err.to_string(), "bad token\n");
    assert!(err.span.is_none() && err.line_text.is_none());
}

#[test]
fn parse_error_points_at_its_column() {
    let source = "x = 1\ny = (2\n";
    let span = span_from_offset(10, 11, source);
    let err = error_with_span("unclosed paren", span, source);
    assert_eq!(err.line_text.as_deref(), Some("y = (2"));
    assert_eq!(err.to_string(), "unclosed paren\n--> 2:5\ny = (2\n    ^\n");
}

#[test]
fn parse_error_at_column_zero_puts_the_caret_first() {
    let span = SourceSpan {
        start: SourcePos { offset: 0, line: 1, column: 0 },
        end: SourcePos { offset: 0, line: 1, column: 0 },
    };
    let err = ParseError { message: "m".to_string(), span: Some(span), line_text: Some("abc".to_string()) };
    assert_eq!(err.to_string(), "m\n--> 1:0\nabc\n^\n");
}

#[test]
fn snail_errors_show_the_error_they_hold() {
    let parse: SnailError = ParseError::new("p").into();
    let lower: SnailError = LowerError::new("l").into();
    assert_eq!(parse.to_string(), "p\n");
    assert_eq!(lower.to_string(), "l");
    assert!(matches!(parse, SnailError::Parse(_)));
    assert!(matches!(lower, SnailError::Lower(_)));
}

#[test]
fn sizes_shrink_and_stop_at_zero() {
    let s = Size::new(5);
    assert_eq!(s.half(), Size(2));
    assert_eq!(s.decrement(), Size(4));
    assert_eq!(Size(0).decrement(), Size(0));
    assert!(Size(0).is_zero());
    assert!(!s.is_zero());
    assert!(Size(1) < Size(2));
}
