use snail::constants::escape_for_python_string;
use snail::lexing::unescape_string_text;
use snail::usage::{module_uses_snail_subprocess, stmts_use_helper, Helper};
use snail::utils::dummy_span;
use snail::{
    format_snail_source, python_source, python_source_with_auto_print, JmespathSources, PyExpr,
    PyModule, PyStmt,
};

fn no_jmespath() -> JmespathSources {
    JmespathSources {
        compat: String::new(),
        exceptions: String::new(),
        ast: String::new(),
        lexer: String::new(),
        functions: String::new(),
        visitor: String::new(),
        parser: String::new(),
        init: String::new(),
    }
}

fn call(func: &str) -> PyExpr {
    PyExpr::Call {
        func: Box::new(PyExpr::Name { id: func.to_string(), span: dummy_span() }),
        args: vec![],
        span: dummy_span(),
    }
}

fn expr_stmt(value: PyExpr, semicolon_terminated: bool) -> PyStmt {
    PyStmt::Expr { value, semicolon_terminated, span: dummy_span() }
}

#[test]
fn escaped_text_reads_back_unchanged() {
    for text in ["plain", "quote \" and \\ back", "lines\nand\ttabs\r", ""] {
        assert_eq!(unescape_string_text(&escape_for_python_string(text)), text);
    }
}

#[test]
fn formatted_lines_have_no_trailing_blanks() {
    let out = format_snail_source("a \t\nb  \r\n\t\n  c");
    assert_eq!(out, "a\nb\n\n  c\n");
    assert!(out.lines().all(|l| !l.ends_with(' ') && !l.ends_with('\t')));
    assert!(out.ends_with('\n'));
}

#[test]
fn a_nested_helper_call_counts_as_use() {
    let inner = expr_stmt(call("__SnailSubprocessStatus"), false);
    let body = vec![PyStmt::While {
        test: PyExpr::Bool { value: true, span: dummy_span() },
        body: vec![inner],
        orelse: vec![],
        span: dummy_span(),
    }];
    assert!(stmts_use_helper(&body, Helper::Subprocess));
    assert!(!stmts_use_helper(&body, Helper::Regex));
    let module = PyModule { body, span: dummy_span() };
    assert!(module_uses_snail_subprocess(&module));
    let src = python_source(&module, &no_jmespath());
    assert!(src.starts_with("import subprocess\n\nclass __SnailSubprocessCapture:\n"));
    assert!(src.contains("class __SnailSubprocessStatus:\n"));
}

#[test]
fn a_module_without_helpers_is_its_statements() {
    let module = PyModule { body: vec![expr_stmt(call("f"), false)], span: dummy_span() };
    assert_eq!(python_source(&module, &no_jmespath()), "f()\n");
}

#[test]
fn auto_print_changes_nothing_without_a_bare_last_expression() {
    let module = PyModule {
        body: vec![expr_stmt(call("f"), false), PyStmt::Pass { span: dummy_span() }],
        span: dummy_span(),
    };
    assert_eq!(
        python_source_with_auto_print(&module, true, &no_jmespath()),
        python_source_with_auto_print(&module, false, &no_jmespath())
    );
}

#[test]
fn structured_accessor_embeds_jmespath_sources() {
    let module = PyModule {
        body: vec![expr_stmt(call("__SnailStructuredAccessor"), false)],
        span: dummy_span(),
    };
    let mut sources = no_jmespath();
    sources.compat = "x = \"q\"\n".to_string();
    let src = python_source(&module, &sources);
    assert!(src.starts_with("# Vendored jmespath library (embedded to avoid external dependency)\nimport sys\n"));
    assert!(src.contains("    exec(compile(\"x = \\\"q\\\"\\n\", 'jmespath/compat.py', 'exec'), __mod.__dict__)\n"));
    assert!(src.contains("\nimport jmespath\nimport json as _json\n"));
    assert!(src.ends_with("\n__SnailStructuredAccessor()\n"));
}
