use snail::fstring::{parse_fstring_parts, FStringPiece};
use snail::syntax::assign_target_from_expr;
use snail::utils::dummy_span;
use snail::debug_form::expr_debug;
use snail::{
    Argument, AssignTarget, BinaryOp, CompareOp, Expr, FStringPart, RegexPattern, StringDelimiter,
    SubprocessKind, SubprocessPart,
};

fn text(s: &str) -> FStringPiece {
    FStringPiece::Text(s.to_string())
}

fn hole(s: &str, offset: usize) -> FStringPiece {
    FStringPiece::Hole { text: s.to_string(), offset }
}

#[test]
fn fstring_body_splits_into_text_and_holes() {
    let source = "\"a {x} b {y + 1}\"";
    let parts = parse_fstring_parts("a {x} b {y + 1}", 1, source).unwrap();
    assert_eq!(parts, vec![text("a "), hole("x", 4), text(" b "), hole("y + 1", 10)]);
}

#[test]
fn fstring_doubled_braces_are_text() {
    let parts = parse_fstring_parts("{{a}} {b}", 0, "{{a}} {b}").unwrap();
    assert_eq!(parts, vec![text("{a} "), hole("b", 7)]);
    let only = parse_fstring_parts("{{}}", 0, "{{}}").unwrap();
    assert_eq!(only, vec![text("{}")]);
    assert_eq!(parse_fstring_parts("", 0, "").unwrap(), vec![]);
}

#[test]
fn fstring_holes_skip_nested_brackets_and_strings() {
    let body = "{d['}']}{f({1: 2})}";
    let parts = parse_fstring_parts(body, 0, body).unwrap();
    assert_eq!(parts, vec![hole("d['}']", 1), hole("f({1: 2})", 9)]);
}

#[test]
fn fstring_text_keeps_multibyte_characters() {
    let body = "é {x} ü";
    let parts = parse_fstring_parts(body, 0, body).unwrap();
    assert_eq!(parts, vec![text("é "), hole("x", 4), text(" ü")]);
}

#[test]
fn fstring_unterminated_hole_is_refused() {
    let err = parse_fstring_parts("a {b", 0, "a {b").unwrap_err();
    assert_eq!(err.message, "unterminated f-string expression");
    let span = err.span.unwrap();
    assert_eq!((span.start.offset, span.end.offset), (2, 3));
    assert_eq!((span.start.line, span.start.column), (1, 3));
    assert_eq!(err.line_text.as_deref(), Some("a {b"));
}

#[test]
fn fstring_empty_hole_is_refused() {
    let err = parse_fstring_parts("x{  }", 5, "abcdex{  }").unwrap_err();
    assert_eq!(err.message, "empty f-string expression");
    let span = err.span.unwrap();
    assert_eq!((span.start.offset, span.end.offset), (6, 10));
    let tab = parse_fstring_parts("{\t}", 0, "{\t}").unwrap_err();
    assert_eq!(tab.message, "empty f-string expression");
}

#[test]
fn fstring_lone_closing_brace_is_refused() {
    let err = parse_fstring_parts("a}b", 0, "a}b").unwrap_err();
    assert_eq!(err.message, "unmatched '}' in f-string");
    let span = err.span.unwrap();
    assert_eq!((span.start.offset, span.end.offset), (1, 2));
}

#[test]
fn names_attributes_and_indexes_are_targets() {
    let name = Expr::Name { name: "x".to_string(), span: dummy_span() };
    assert_eq!(
        assign_target_from_expr(name, "x").unwrap(),
        AssignTarget::Name { name: "x".to_string(), span: dummy_span() }
    );
    let base = Box::new(Expr::Name { name: "a".to_string(), span: dummy_span() });
    let attr = Expr::Attribute { value: base, attr: "b".to_string(), span: dummy_span() };
    match assign_target_from_expr(attr, "a.b").unwrap() {
        AssignTarget::Attribute { attr, .. } => assert_eq!(attr, "b"),
        other => panic!("unexpected target {:?}", other),
    }
    let value = Box::new(Expr::Name { name: "a".to_string(), span: dummy_span() });
    let index = Box::new(Expr::Number { value: "0".to_string(), span: dummy_span() });
    let idx = Expr::Index { value, index, span: dummy_span() };
    assert!(matches!(assign_target_from_expr(idx, "a[0]").unwrap(), AssignTarget::Index { .. }));
}

#[test]
fn other_expressions_are_not_targets() {
    let source = "1 = x";
    let span = snail::source_pos::span_from_offset(0, 1, source);
    let number = Expr::Number { value: "1".to_string(), span };
    let err = assign_target_from_expr(number, source).unwrap_err();
    assert!(err.message.starts_with("unsupported assignment target: Number"));
    assert_eq!(err.span, Some(span));
    assert_eq!(err.line_text.as_deref(), Some("1 = x"));
}

#[test]
fn fstring_pieces_rebuild_the_body() {
    let body = "x={{ {a['}']} }} {f(1)}!";
    let pieces = parse_fstring_parts(body, 0, body).unwrap();
    let mut rebuilt = String::new();
    for piece in &pieces {
        match piece {
            FStringPiece::Text(t) => rebuilt.push_str(&t.replace('{', "{{").replace('}', "}}")),
            FStringPiece::Hole { text, .. } => {
                rebuilt.push('{');
                rebuilt.push_str(text);
                rebuilt.push('}');
            }
        }
    }
    assert_eq!(rebuilt, body);
}

#[test]
fn expression_text_matches_its_debug_rendering() {
    let span = snail::source_pos::span_from_offset(2, 5, "ab\"cd\ne");
    let name = |n: &str| Expr::Name { name: n.to_string(), span };
    let samples = vec![
        name("x"),
        Expr::String { value: "a \"q\"\n\t\\ é".to_string(), raw: true, delimiter: StringDelimiter::TripleSingle, span },
        Expr::Compare {
            left: Box::new(name("a")),
            ops: vec![CompareOp::Lt, CompareOp::In],
            comparators: vec![name("b"), Expr::Bool { value: false, span }],
            span,
        },
        Expr::TryExpr { expr: Box::new(name("r")), fallback: None, span },
        Expr::Slice { start: Some(Box::new(Expr::NoneLiteral { span })), end: None, span },
        Expr::Dict { entries: vec![(name("k"), name("v")), (name("k2"), name("v2"))], span },
        Expr::Call {
            func: Box::new(name("f")),
            args: vec![
                Argument::Keyword { name: "kw".to_string(), value: name("v"), span },
                Argument::KwStar { value: name("d"), span },
            ],
            span,
        },
        Expr::RegexMatch {
            value: Box::new(name("s")),
            pattern: RegexPattern::Interpolated(vec![
                FStringPart::Text("^".to_string()),
                FStringPart::Expr(Box::new(name("p"))),
            ]),
            span,
        },
        Expr::Subprocess {
            kind: SubprocessKind::Status,
            parts: vec![SubprocessPart::Text("ls ".to_string()), SubprocessPart::Expr(Box::new(name("d")))],
            span,
        },
        Expr::Binary { left: Box::new(name("a")), op: BinaryOp::FloorDiv, right: Box::new(name("b")), span },
        Expr::List { elements: vec![], span },
    ];
    for e in &samples {
        let derived = format!("{:?}", e).replace("NoneLiteral {", "None {").replace("SetLiteral {", "Set {");
        assert_eq!(expr_debug(e), derived);
    }
}
