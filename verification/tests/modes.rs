use snail::lower_map::lower_files_stmt;
use snail::utils::dummy_span;
use snail::wrap::wrap_source;
use snail::{AssignTarget, Expr, JmespathSources, PyModule, SourceSpan, Stmt, python_source};

fn sp() -> SourceSpan {
    dummy_span()
}

fn name(n: &str) -> Expr {
    Expr::Name { name: n.to_string(), span: sp() }
}

fn no_jmespath() -> JmespathSources {
    JmespathSources {
        compat: String::new(),
        exceptions: String::new(),
        ast: String::new(),
        lexer: String::new(),
        functions: String::new(),
        visitor: String::new(),
        parser: String::new(),
        init: String::new(),
    }
}

fn source_of(stmts: Vec<snail::PyStmt>) -> String {
    python_source(&PyModule { body: stmts, span: sp() }, &no_jmespath())
}

fn strings(v: &[&str]) -> Vec<String> {
    v.iter().map(|s| s.to_string()).collect()
}

#[test]
fn snail_source_is_kept_without_begin_or_end() {
    assert_eq!(wrap_source("x = 1", "snail", &vec![], &vec![], None, None).unwrap(), "x = 1");
}

#[test]
fn cli_begin_comes_first_and_end_last() {
    let wrapped = wrap_source("body", "snail", &strings(&["b1", "b2"]), &strings(&["e1"]), None, None).unwrap();
    assert_eq!(wrapped, "b1\n\u{1f}b2\n\u{1f}body\n\u{1f}e1");
}

#[test]
fn awk_source_goes_inside_lines() {
    let plain = wrap_source("{ print($0) }", "awk", &vec![], &vec![], None, None).unwrap();
    assert_eq!(plain, "lines {\n{ print($0) }\n}");
    let with_kwargs =
        wrap_source("x", "awk", &strings(&["t = 0"]), &strings(&["print(t)"]), Some("\t,"), Some(true)).unwrap();
    assert_eq!(with_kwargs, "t = 0\n\u{1f}lines(sep=\"\\t,\", ws=True) {\nx\n}\n\u{1f}print(t)");
    let ws_off = wrap_source("x", "awk", &vec![], &vec![], None, Some(false)).unwrap();
    assert_eq!(ws_off, "lines {\nx\n}");
}

#[test]
fn map_source_goes_inside_files() {
    assert_eq!(wrap_source("print($src)", "map", &vec![], &vec![], None, None).unwrap(), "files {\nprint($src)\n}");
}

#[test]
fn unknown_mode_is_refused() {
    let err = wrap_source("x", "sed", &vec![], &vec![], None, None).unwrap_err();
    assert_eq!(err.message, "unknown mode: sed (expected 'snail', 'awk', or 'map')");
}

#[test]
fn files_without_sources_loop_over_the_command_line() {
    let body = vec![Stmt::Assign {
        targets: vec![AssignTarget::Name { name: "x".to_string(), span: sp() }],
        value: name("$src"),
        span: sp(),
    }];
    let stmts = lower_files_stmt(&vec![], &body, sp()).unwrap();
    assert_eq!(
        source_of(stmts),
        "import sys\nfor __snail_src in sys.argv[1:]:\n    with __SnailLazyFile(__snail_src, \"r\") as __snail_fd:\n        __snail_text = __SnailLazyText(__snail_fd)\n        x = __snail_src\n"
    );
}

#[test]
fn files_over_sources() {
    let one = lower_files_stmt(&vec![name("paths")], &vec![], sp()).unwrap();
    assert!(source_of(one).starts_with("for __snail_src in __snail_normalize_sources(paths):\n"));
    let two = lower_files_stmt(&vec![name("a"), name("$text")], &vec![], sp()).unwrap();
    assert!(source_of(two).starts_with("for __snail_src in [a, __snail_text]:\n"));
}

#[test]
fn files_body_errors_are_reported() {
    let body = vec![Stmt::Expr { value: name("$e"), semicolon_terminated: false, span: sp() }];
    let err = lower_files_stmt(&vec![], &body, sp()).unwrap_err();
    assert_eq!(err.message, "`$e` is only available in compact exception fallbacks");
}
