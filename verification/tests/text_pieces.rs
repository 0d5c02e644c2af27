use snail::constants::{escape_for_python_string, injected_py_name};
use snail::emit_expr::{escape_f_string_text, expr_source, format_f_string, format_string_literal};
use snail::lexing::{
    find_fstring_expr_end, join_fstring_text, match_injected_name, normalize_regex_parts,
    normalize_regex_text, normalize_string_parts, parse_subprocess_text_parts, skip_string_literal,
    unescape_regex_text, unescape_string_text, unescape_text,
};
use snail::source_pos::{full_span, line_col_from_offset, line_text, span_from_offset};
use snail::shift::shift_expr_spans;
use snail::utils::dummy_span;
use snail::{BinaryOp, Expr, FStringPart, PyExpr, PyFStringPart, SourcePos, StringDelimiter, SubprocessPart};

fn pname(id: &str) -> PyExpr {
    PyExpr::Name { id: id.to_string(), span: dummy_span() }
}

#[test]
fn string_literals_keep_their_text() {
    assert_eq!(format_string_literal("a b", false, StringDelimiter::Double), "\"a b\"");
    assert_eq!(format_string_literal("x", true, StringDelimiter::TripleSingle), "r'''x'''");
}

#[test]
fn f_string_text_is_escaped_and_braces_doubled() {
    assert_eq!(escape_f_string_text("a{b}\"c\\\n"), "a{{b}}\\\"c\\\\\\n");
    let parts = vec![PyFStringPart::Text("n = ".to_string()), PyFStringPart::Expr(pname("n"))];
    assert_eq!(format_f_string(&parts), "f\"n = {n}\"");
}

#[test]
fn tuples_of_one_keep_their_comma() {
    let one = PyExpr::Tuple { elements: vec![pname("a")], span: dummy_span() };
    let none = PyExpr::Tuple { elements: vec![], span: dummy_span() };
    let two = PyExpr::Tuple { elements: vec![pname("a"), pname("b")], span: dummy_span() };
    assert_eq!(expr_source(&one), "(a,)");
    assert_eq!(expr_source(&none), "()");
    assert_eq!(expr_source(&two), "(a, b)");
}

#[test]
fn lambdas_and_comprehensions_are_written() {
    let lam = PyExpr::Lambda { params: vec![], body: Box::new(pname("x")), span: dummy_span() };
    assert_eq!(expr_source(&lam), "lambda: x");
    let lam2 = PyExpr::Lambda {
        params: vec!["a".to_string(), "b".to_string()],
        body: Box::new(pname("a")),
        span: dummy_span(),
    };
    assert_eq!(expr_source(&lam2), "lambda a, b: a");
    let comp = PyExpr::DictComp {
        key: Box::new(pname("k")),
        value: Box::new(pname("v")),
        target: "k, v".to_string(),
        iter: Box::new(pname("items")),
        ifs: vec![pname("v"), pname("k")],
        span: dummy_span(),
    };
    assert_eq!(expr_source(&comp), "{k: v for k, v in items if v if k}");
    let slice = PyExpr::Slice { start: None, end: Some(Box::new(pname("n"))), span: dummy_span() };
    assert_eq!(expr_source(&slice), ":n");
}

#[test]
fn python_string_escaping() {
    assert_eq!(escape_for_python_string("a\"b\\c\n\r\t"), "a\\\"b\\\\c\\n\\r\\t");
}

#[test]
fn injected_names_of_awk_and_map_variables() {
    assert_eq!(injected_py_name("$fn"), Some("__snail_fnr_user"));
    assert_eq!(injected_py_name("$src"), Some("__snail_src"));
    assert_eq!(injected_py_name("$l"), None);
    assert_eq!(injected_py_name("x"), None);
}

#[test]
fn injected_name_prefixes() {
    assert_eq!(match_injected_name("fn rest"), Some(("fn", 2)));
    assert_eq!(match_injected_name("f"), Some(("f", 1)));
    assert_eq!(match_injected_name("e.x"), Some(("e", 1)));
    assert_eq!(match_injected_name("zz"), None);
    assert_eq!(match_injected_name(""), None);
}

#[test]
fn line_and_column_count_characters() {
    let src = "ab\nπx\nz";
    assert_eq!(line_col_from_offset(src, 0), (1, 1));
    assert_eq!(line_col_from_offset(src, 3), (2, 1));
    // `π` takes two bytes: the column after it is 2, at byte 5.
    assert_eq!(line_col_from_offset(src, 5), (2, 2));
    assert_eq!(line_col_from_offset(src, 100), (3, 2));
    let span = span_from_offset(3, 6, src);
    assert_eq!(span.start, SourcePos { offset: 3, line: 2, column: 1 });
    assert_eq!(span.end, SourcePos { offset: 6, line: 2, column: 3 });
    let whole = full_span(src);
    assert_eq!(whole.end, SourcePos { offset: 8, line: 3, column: 2 });
}

#[test]
fn line_text_follows_lines() {
    let src = "first\r\nsecond\nthird";
    assert_eq!(line_text(src, 0), None);
    assert_eq!(line_text(src, 1), Some("first".to_string()));
    assert_eq!(line_text(src, 2), Some("second".to_string()));
    assert_eq!(line_text(src, 3), Some("third".to_string()));
    assert_eq!(line_text(src, 4), None);
}

#[test]
fn subprocess_text_splits_out_fields_and_variables() {
    let source = "$(echo $1 {{$fn}} $$ $q)";
    let text = "echo $1 {{$fn}} $$ $q";
    let parts = parse_subprocess_text_parts(text, 2, source).unwrap();
    assert_eq!(parts.len(), 5);
    assert!(matches!(&parts[0], SubprocessPart::Text(t) if t == "echo "));
    match &parts[1] {
        SubprocessPart::Expr(e) => match e.as_ref() {
            Expr::FieldIndex { index, span } => {
                assert_eq!(index, "1");
                assert_eq!(span.start.offset, 7);
                assert_eq!(span.end.offset, 9);
                assert_eq!(span.start.column, 8);
            },
            other => panic!("unexpected {:?}", other),
        },
        other => panic!("unexpected {:?}", other),
    }
    assert!(matches!(&parts[2], SubprocessPart::Text(t) if t == " {"));
    match &parts[3] {
        SubprocessPart::Expr(e) => match e.as_ref() {
            Expr::Name { name, span } => {
                assert_eq!(name, "$fn");
                assert_eq!(span.start.offset, 12);
                assert_eq!(span.end.offset, 15);
            },
            other => panic!("unexpected {:?}", other),
        },
        other => panic!("unexpected {:?}", other),
    }
    assert!(matches!(&parts[4], SubprocessPart::Text(t) if t == "} $ $q"));
}

#[test]
fn escapes_of_literals_are_replaced() {
    assert_eq!(unescape_string_text("a\\nb\\t\\\"\\q\\"), "a\nb\t\"\\q\\");
    assert_eq!(unescape_string_text("\\/"), "\\/");
    assert_eq!(unescape_regex_text("\\/"), "/");
    assert_eq!(unescape_text("\\'x\\\\", false), "'x\\");
    assert_eq!(normalize_regex_text("a\\/b\\d"), "a/b\\d");
}

#[test]
fn parts_of_literals_are_normalized() {
    let parts = vec![
        FStringPart::Text("a\\n".to_string()),
        FStringPart::Expr(Box::new(Expr::Name { name: "x".to_string(), span: dummy_span() })),
    ];
    let raw = normalize_string_parts(
        vec![FStringPart::Text("a\\n".to_string())],
        true,
    )
    .unwrap();
    assert!(matches!(&raw[0], FStringPart::Text(t) if t == "a\\n"));
    let cooked = normalize_string_parts(parts, false).unwrap();
    assert!(matches!(&cooked[0], FStringPart::Text(t) if t == "a\n"));
    assert!(matches!(&cooked[1], FStringPart::Expr(_)));
    let regex = normalize_regex_parts(vec![FStringPart::Text("\\/x".to_string())]).unwrap();
    assert!(matches!(&regex[0], FStringPart::Text(t) if t == "/x"));
    let joined = join_fstring_text(vec![
        FStringPart::Text("ab".to_string()),
        FStringPart::Expr(Box::new(Expr::Name { name: "x".to_string(), span: dummy_span() })),
        FStringPart::Text("cd".to_string()),
    ]);
    assert_eq!(joined, "abcd");
}

#[test]
fn string_literals_are_skipped_whole() {
    assert_eq!(skip_string_literal(b"'ab' rest", 0), Some(4));
    assert_eq!(skip_string_literal(b"\"a\\\"b\" x", 0), Some(6));
    assert_eq!(skip_string_literal(b"r'a\\'b", 0), Some(5));
    assert_eq!(skip_string_literal(b"'''a'b'''", 0), Some(9));
    assert_eq!(skip_string_literal(b"'open", 0), None);
}

#[test]
fn f_string_holes_end_at_their_brace() {
    assert_eq!(find_fstring_expr_end("{x}", 1), Some(2));
    assert_eq!(find_fstring_expr_end("{d['}']}", 1), Some(7));
    assert_eq!(find_fstring_expr_end("{f({1: 2})} tail", 1), Some(10));
    assert_eq!(find_fstring_expr_end("{x", 1), None);
}

#[test]
fn shifting_moves_spans_into_the_whole_source() {
    let source = "ab = f\"{x+y}\"";
    let piece = "x+y";
    let mut e = Expr::Binary {
        left: Box::new(Expr::Name { name: "x".to_string(), span: span_from_offset(0, 1, piece) }),
        op: BinaryOp::Add,
        right: Box::new(Expr::Name { name: "y".to_string(), span: span_from_offset(2, 3, piece) }),
        span: span_from_offset(0, 3, piece),
    };
    shift_expr_spans(&mut e, 8, source);
    match &e {
        Expr::Binary { left, right, span, .. } => {
            assert_eq!(span.start, SourcePos { offset: 8, line: 1, column: 9 });
            assert_eq!(span.end, SourcePos { offset: 11, line: 1, column: 12 });
            match (left.as_ref(), right.as_ref()) {
                (Expr::Name { span: l, .. }, Expr::Name { span: r, .. }) => {
                    assert_eq!(l.start.offset, 8);
                    assert_eq!(r.start.offset, 10);
                    assert_eq!(r.end.column, 12);
                },
                other => panic!("unexpected {:?}", other),
            }
        },
        other => panic!("unexpected {:?}", other),
    }
}

#[test]
fn shifting_leaves_the_inside_of_lists_alone() {
    let source = "0123456789";
    let inner = Expr::Name { name: "a".to_string(), span: dummy_span() };
    let mut e = Expr::List { elements: vec![inner], span: span_from_offset(0, 1, "a") };
    shift_expr_spans(&mut e, 4, source);
    match &e {
        Expr::List { elements, span } => {
            assert_eq!(span.start.offset, 4);
            assert_eq!(span.start.column, 5);
            match &elements[0] {
                Expr::Name { span, .. } => assert_eq!(*span, dummy_span()),
                other => panic!("unexpected {:?}", other),
            }
        },
        other => panic!("unexpected {:?}", other),
    }
}

#[test]
fn shifting_an_argument_moves_its_value() {
    use_shift_argument();
}

fn use_shift_argument() {
    let mut arg = snail::Argument::Keyword {
        name: "k".to_string(),
        value: Expr::Name { name: "v".to_string(), span: span_from_offset(2, 3, "k=v") },
        span: span_from_offset(0, 3, "k=v"),
    };
    snail::shift::shift_argument_spans(&mut arg, 1, "(k=v)");
    match &arg {
        snail::Argument::Keyword { value: Expr::Name { span: v, .. }, span, .. } => {
            assert_eq!(span.start.offset, 1);
            assert_eq!(span.end.offset, 4);
            assert_eq!(v.start, SourcePos { offset: 3, line: 1, column: 4 });
        },
        other => panic!("unexpected {:?}", other),
    }
}

#[test]
fn signed_numbers_are_written_in_full() {
    let text = |v: i64| snail::text::i64_text(v).into_iter().collect::<String>();
    assert_eq!(text(i64::MIN), "-9223372036854775808");
    assert_eq!(text(-42), "-42");
    assert_eq!(text(0), "0");
}
