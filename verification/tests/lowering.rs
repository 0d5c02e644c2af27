use snail::lower::{lower_expr, lower_expr_with_exception};
use snail::utils::dummy_span;
use snail::{
    Argument, AssignTarget, AwkProgram, AwkRule, BinaryOp, CompareOp, Expr, JmespathSources,
    Program, PyExpr, PyStmt, RegexPattern, SourceSpan, Stmt, StringDelimiter, lower_awk_program,
    lower_awk_program_with_auto_print, lower_program, python_source, python_source_with_auto_print,
};

fn sp() -> SourceSpan {
    dummy_span()
}

fn name(n: &str) -> Expr {
    Expr::Name { name: n.to_string(), span: sp() }
}

fn num(v: &str) -> Expr {
    Expr::Number { value: v.to_string(), span: sp() }
}

fn no_jmespath() -> JmespathSources {
    JmespathSources {
        compat: String::new(),
        exceptions: String::new(),
        ast: String::new(),
        lexer: String::new(),
        functions: String::new(),
        visitor: String::new(),
        parser: String::new(),
        init: String::new(),
    }
}

fn assign(target: &str, value: Expr) -> Stmt {
    Stmt::Assign {
        targets: vec![AssignTarget::Name { name: target.to_string(), span: sp() }],
        value,
        span: sp(),
    }
}

fn expr_stmt(value: Expr, semicolon: bool) -> Stmt {
    Stmt::Expr { value, semicolon_terminated: semicolon, span: sp() }
}

fn program(stmts: Vec<Stmt>) -> Program {
    Program { stmts, span: sp() }
}

fn source_of(p: &Program) -> String {
    python_source(&lower_program(p).unwrap(), &no_jmespath())
}

#[test]
fn field_zero_is_the_whole_line() {
    let e = Expr::FieldIndex { index: "0".to_string(), span: sp() };
    match lower_expr(&e).unwrap() {
        PyExpr::Name { id, .. } => assert_eq!(id, "__snail_line"),
        other => panic!("unexpected {:?}", other),
    }
}

#[test]
fn field_indices_count_from_one() {
    let e = Expr::FieldIndex { index: "3".to_string(), span: sp() };
    let lowered = lower_expr(&e).unwrap();
    assert_eq!(snail::emit_expr::expr_source(&lowered), "__snail_fields[2]");
}

#[test]
fn a_non_numeric_field_index_is_refused() {
    let e = Expr::FieldIndex { index: "x1".to_string(), span: sp() };
    let err = lower_expr(&e).unwrap_err();
    assert_eq!(err.message, "Invalid field index: $x1");
}

#[test]
fn dollar_e_outside_a_fallback_is_refused() {
    let err = lower_expr(&name("$e")).unwrap_err();
    assert_eq!(err.message, "`$e` is only available in compact exception fallbacks");
}

#[test]
fn dollar_e_inside_a_fallback_names_the_exception() {
    let lowered = lower_expr_with_exception(&name("$e"), Some("err")).unwrap();
    assert_eq!(snail::emit_expr::expr_source(&lowered), "err");
}

#[test]
fn awk_variables_become_python_names() {
    let lowered = lower_expr(&name("$n")).unwrap();
    assert_eq!(snail::emit_expr::expr_source(&lowered), "__snail_nr_user");
}

#[test]
fn try_expression_calls_the_try_helper() {
    let e = Expr::TryExpr { expr: Box::new(name("risky")), fallback: None, span: sp() };
    let src = source_of(&program(vec![expr_stmt(e, false)]));
    assert!(src.starts_with("def __snail_compact_try(expr_fn, fallback_fn=None):\n"));
    assert!(src.ends_with("\n__snail_compact_try(lambda: risky)\n"));
}

#[test]
fn simple_assignment_is_written_alone() {
    let src = source_of(&program(vec![assign("x", num("1"))]));
    assert_eq!(src, "x = 1\n");
}

#[test]
fn if_elif_else_becomes_an_elif_chain() {
    let stmt = Stmt::If {
        cond: name("a"),
        body: vec![assign("x", num("1"))],
        elifs: vec![(name("b"), vec![assign("x", num("2"))])],
        else_body: Some(vec![Stmt::Pass { span: sp() }]),
        span: sp(),
    };
    let src = source_of(&program(vec![stmt]));
    assert_eq!(src, "if a:\n    x = 1\nelif b:\n    x = 2\nelse:\n    pass\n");
}

#[test]
fn empty_blocks_are_written_as_pass() {
    let stmt = Stmt::While { cond: Expr::Bool { value: true, span: sp() }, body: vec![], else_body: None, span: sp() };
    assert_eq!(source_of(&program(vec![stmt])), "while True:\n    pass\n");
}

#[test]
fn binary_and_comparison_are_parenthesised() {
    let sum = Expr::Binary { left: Box::new(num("1")), op: BinaryOp::Add, right: Box::new(num("2")), span: sp() };
    let cmp = Expr::Compare {
        left: Box::new(sum),
        ops: vec![CompareOp::Lt, CompareOp::LtEq],
        comparators: vec![num("4"), name("y")],
        span: sp(),
    };
    assert_eq!(source_of(&program(vec![assign("ok", cmp)])), "ok = ((1 + 2) < 4 <= y)\n");
}

#[test]
fn calls_write_their_arguments() {
    let call = Expr::Call {
        func: Box::new(name("f")),
        args: vec![
            Argument::Positional { value: num("1"), span: sp() },
            Argument::Keyword { name: "k".to_string(), value: name("v"), span: sp() },
            Argument::Star { value: name("rest"), span: sp() },
        ],
        span: sp(),
    };
    assert_eq!(source_of(&program(vec![expr_stmt(call, false)])), "f(1, k=v, *rest)\n");
}

#[test]
fn strings_keep_their_delimiter_and_raw_prefix() {
    let s = Expr::String { value: "a\\d".to_string(), raw: true, delimiter: StringDelimiter::Single, span: sp() };
    assert_eq!(source_of(&program(vec![assign("p", s)])), "p = r'a\\d'\n");
}

#[test]
fn regex_match_brings_the_regex_helpers() {
    let m = Expr::RegexMatch {
        value: Box::new(name("line")),
        pattern: RegexPattern::Literal("ab+".to_string()),
        span: sp(),
    };
    let src = source_of(&program(vec![assign("m", m)]));
    assert!(src.starts_with("import re\n\ndef __snail_regex_search(value, pattern):\n"));
    assert!(src.ends_with("\nm = __snail_regex_search(line, r\"ab+\")\n"));
}

#[test]
fn auto_print_wraps_a_final_bare_expression() {
    let m = lower_program(&program(vec![assign("x", num("1")), expr_stmt(name("x"), false)])).unwrap();
    let src = python_source_with_auto_print(&m, true, &no_jmespath());
    assert_eq!(
        src,
        "x = 1\n__snail_last_result = x\nif isinstance(__snail_last_result, str):\n    print(__snail_last_result)\nelif __snail_last_result is not None:\n    import pprint\n    pprint.pprint(__snail_last_result)\n"
    );
}

#[test]
fn auto_print_leaves_a_semicolon_terminated_expression() {
    let m = lower_program(&program(vec![expr_stmt(name("x"), true)])).unwrap();
    assert_eq!(python_source_with_auto_print(&m, true, &no_jmespath()), "x\n");
}

#[test]
fn awk_program_loops_over_files_and_lines() {
    let rule = AwkRule {
        pattern: Some(Expr::Regex { pattern: RegexPattern::Literal("hello".to_string()), span: sp() }),
        action: None,
        span: sp(),
    };
    let p = AwkProgram {
        begin_blocks: vec![vec![assign("total", num("0"))]],
        rules: vec![rule],
        end_blocks: vec![],
        span: sp(),
    };
    let m = lower_awk_program(&p).unwrap();
    let src = python_source(&m, &no_jmespath());
    assert!(src.contains("\nimport sys\ntotal = 0\n__snail_nr = 0\nfor __snail_path in (sys.argv[1:] or [\"-\"]):\n"));
    assert!(src.contains("    __snail_fnr = 0\n    if (__snail_path == \"-\"):\n        __snail_file = sys.stdin\n        for __snail_raw in __snail_file:\n"));
    assert!(src.contains("            __snail_line = __snail_raw.rstrip(\"\\n\")\n            __snail_fields = __snail_line.split()\n"));
    assert!(src.contains("            __snail_match = __snail_regex_search(__snail_line, r\"hello\")\n            if __snail_match:\n                print(__snail_line)\n"));
    assert!(src.contains("    else:\n        with open(__snail_path) as __snail_file:\n"));
}

#[test]
fn awk_auto_print_prints_a_rule_result() {
    let rule = AwkRule { pattern: None, action: Some(vec![expr_stmt(name("$0x"), false)]), span: sp() };
    let p = AwkProgram { begin_blocks: vec![], rules: vec![rule], end_blocks: vec![], span: sp() };
    let m = lower_awk_program_with_auto_print(&p, true).unwrap();
    let src = python_source(&m, &no_jmespath());
    assert!(src.contains("__snail_last_result = $0x\n"));
    let plain = python_source(&lower_awk_program(&p).unwrap(), &no_jmespath());
    assert!(!plain.contains("__snail_last_result"));
}

#[test]
fn awk_errors_come_from_the_rules() {
    let rule = AwkRule { pattern: Some(Expr::FieldIndex { index: "z".to_string(), span: sp() }), action: None, span: sp() };
    let p = AwkProgram { begin_blocks: vec![], rules: vec![rule], end_blocks: vec![], span: sp() };
    assert_eq!(lower_awk_program(&p).unwrap_err().message, "Invalid field index: $z");
}

#[test]
fn lowered_module_keeps_the_program_span() {
    let p = program(vec![Stmt::Break { span: sp() }]);
    let m = lower_program(&p).unwrap();
    assert_eq!(m.span, p.span);
    assert!(matches!(m.body[0], PyStmt::Break { .. }));
}
