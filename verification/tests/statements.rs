use snail::utils::dummy_span;
use snail::{
    Argument, AssignTarget, BinaryOp, ExceptHandler, Expr, ImportItem, JmespathSources, Parameter,
    Program, SourceSpan, Stmt, StringDelimiter, SubprocessKind, SubprocessPart, WithItem,
    lower_program, python_source,
};

fn sp() -> SourceSpan {
    dummy_span()
}

fn name(n: &str) -> Expr {
    Expr::Name { name: n.to_string(), span: sp() }
}

fn num(v: &str) -> Expr {
    Expr::Number { value: v.to_string(), span: sp() }
}

fn call(func: &str, args: Vec<Expr>) -> Expr {
    Expr::Call {
        func: Box::new(name(func)),
        args: args.into_iter().map(|value| Argument::Positional { value, span: sp() }).collect(),
        span: sp(),
    }
}

fn target(n: &str) -> AssignTarget {
    AssignTarget::Name { name: n.to_string(), span: sp() }
}

fn assign(t: &str, value: Expr) -> Stmt {
    Stmt::Assign { targets: vec![target(t)], value, span: sp() }
}

fn no_jmespath() -> JmespathSources {
    JmespathSources {
        compat: String::new(),
        exceptions: String::new(),
        ast: String::new(),
        lexer: String::new(),
        functions: String::new(),
        visitor: String::new(),
        parser: String::new(),
        init: String::new(),
    }
}

fn source_of(stmts: Vec<Stmt>) -> String {
    let program = Program { stmts, span: sp() };
    python_source(&lower_program(&program).unwrap(), &no_jmespath())
}

fn import_item(path: &[&str], alias: Option<&str>) -> ImportItem {
    ImportItem {
        name: path.iter().map(|p| p.to_string()).collect(),
        alias: alias.map(|a| a.to_string()),
        span: sp(),
    }
}

#[test]
fn classes_and_functions_are_written_with_their_parameters() {
    let def = Stmt::Def {
        name: "f".to_string(),
        params: vec![
            Parameter::Regular { name: "self".to_string(), default: None, span: sp() },
            Parameter::Regular { name: "n".to_string(), default: Some(num("1")), span: sp() },
            Parameter::VarArgs { name: "args".to_string(), span: sp() },
            Parameter::KwArgs { name: "kw".to_string(), span: sp() },
        ],
        body: vec![Stmt::Return { value: Some(name("n")), span: sp() }],
        span: sp(),
    };
    let class = Stmt::Class { name: "A".to_string(), body: vec![def], span: sp() };
    assert_eq!(
        source_of(vec![class]),
        "class A:\n    def f(self, n=1, *args, **kw):\n        return n\n"
    );
}

#[test]
fn try_statements_keep_handlers_else_and_finally() {
    let stmt = Stmt::Try {
        body: vec![Stmt::Pass { span: sp() }],
        handlers: vec![
            ExceptHandler {
                exception_type: Some(name("ValueError")),
                name: Some("e".to_string()),
                body: vec![Stmt::Raise { value: Some(name("e")), from: Some(name("x")), span: sp() }],
                span: sp(),
            },
            ExceptHandler { exception_type: None, name: None, body: vec![], span: sp() },
        ],
        else_body: Some(vec![Stmt::Break { span: sp() }]),
        finally_body: Some(vec![Stmt::Continue { span: sp() }]),
        span: sp(),
    };
    assert_eq!(
        source_of(vec![stmt]),
        "try:\n    pass\nexcept ValueError as e:\n    raise e from x\nexcept:\n    pass\nelse:\n    break\nfinally:\n    continue\n"
    );
}

#[test]
fn loops_with_and_assertions_are_written() {
    let del = Stmt::Delete {
        targets: vec![AssignTarget::Index {
            value: Box::new(name("a")),
            index: Box::new(name("i")),
            span: sp(),
        }],
        span: sp(),
    };
    let for_loop = Stmt::For {
        target: target("i"),
        iter: call("range", vec![num("3")]),
        body: vec![del],
        else_body: Some(vec![Stmt::Raise { value: None, from: None, span: sp() }]),
        span: sp(),
    };
    let with = Stmt::With {
        items: vec![WithItem { context: call("open", vec![name("p")]), target: Some(target("fh")), span: sp() }],
        body: vec![Stmt::Assert {
            test: name("fh"),
            message: Some(Expr::String {
                value: "no file".to_string(),
                raw: false,
                delimiter: StringDelimiter::Double,
                span: sp(),
            }),
            span: sp(),
        }],
        span: sp(),
    };
    assert_eq!(
        source_of(vec![for_loop, with]),
        "for i in range(3):\n    del a[i]\nelse:\n    raise\nwith open(p) as fh:\n    assert fh, \"no file\"\n"
    );
}

#[test]
fn imports_are_written_with_their_aliases() {
    let import = Stmt::Import {
        items: vec![import_item(&["os", "path"], Some("osp")), import_item(&["sys"], None)],
        span: sp(),
    };
    let from = Stmt::ImportFrom {
        module: vec!["a".to_string(), "b".to_string()],
        items: vec![import_item(&["c"], Some("d"))],
        span: sp(),
    };
    assert_eq!(source_of(vec![import, from]), "import os.path as osp, sys\nfrom a.b import c as d\n");
}

#[test]
fn future_braces_import_is_dropped() {
    let only_braces = Stmt::ImportFrom {
        module: vec!["__future__".to_string()],
        items: vec![import_item(&["braces"], None)],
        span: sp(),
    };
    assert_eq!(source_of(vec![only_braces]), "pass\n");
    let mixed = Stmt::ImportFrom {
        module: vec!["__future__".to_string()],
        items: vec![import_item(&["braces"], None), import_item(&["annotations"], None)],
        span: sp(),
    };
    assert_eq!(source_of(vec![mixed]), "from __future__ import annotations\n");
}

fn pipe(left: Expr, right: Expr) -> Expr {
    Expr::Binary { left: Box::new(left), op: BinaryOp::Pipeline, right: Box::new(right), span: sp() }
}

#[test]
fn pipeline_calls_its_right_side() {
    assert_eq!(source_of(vec![assign("y", pipe(name("x"), name("f")))]), "y = f(x)\n");
    let chain = pipe(pipe(name("x"), name("y")), name("z"));
    assert_eq!(source_of(vec![assign("r", chain)]), "r = z(y(x))\n");
    let no_slot = pipe(name("x"), call("g", vec![num("1")]));
    assert_eq!(source_of(vec![assign("r", no_slot)]), "r = g(1)(x)\n");
}

#[test]
fn placeholder_takes_the_piped_value() {
    let greeting = Expr::String { value: "Hello ".to_string(), raw: false, delimiter: StringDelimiter::Double, span: sp() };
    let positional = pipe(name("w"), call("greet", vec![greeting, name("_")]));
    assert_eq!(source_of(vec![assign("g", positional)]), "g = greet(\"Hello \", w)\n");
    let keyword = pipe(
        name("w"),
        Expr::Call {
            func: Box::new(name("greet")),
            args: vec![
                Argument::Positional { value: num("1"), span: sp() },
                Argument::Keyword { name: "suffix".to_string(), value: name("_"), span: sp() },
            ],
            span: sp(),
        },
    );
    assert_eq!(source_of(vec![assign("g", keyword)]), "g = greet(1, suffix=w)\n");
}

#[test]
fn two_placeholders_are_refused_at_the_first() {
    let at = |line: usize, column: usize| SourceSpan {
        start: snail::SourcePos { offset: 0, line, column },
        end: snail::SourcePos { offset: 0, line, column },
    };
    let two = pipe(
        name("w"),
        Expr::Call {
            func: Box::new(name("f")),
            args: vec![
                Argument::Positional { value: num("1"), span: at(1, 3) },
                Argument::Positional { value: Expr::Name { name: "_".to_string(), span: at(2, 7) }, span: at(2, 5) },
                Argument::Keyword {
                    name: "k".to_string(),
                    value: Expr::Name { name: "_".to_string(), span: at(2, 12) },
                    span: at(2, 10),
                },
            ],
            span: sp(),
        },
    );
    let program = Program { stmts: vec![assign("r", two)], span: sp() };
    let err = lower_program(&program).unwrap_err();
    assert_eq!(err.message, "only one `_` placeholder is allowed in a piped call; the first is at 2:7");
}

#[test]
fn nested_placeholder_takes_the_piped_value() {
    let inner = call("g", vec![name("_"), num("2")]);
    let nested = pipe(name("w"), call("f", vec![inner]));
    assert_eq!(source_of(vec![assign("r", nested)]), "r = f(g(w, 2))\n");
    let in_list = pipe(name("w"), call("f", vec![Expr::List { elements: vec![num("1"), name("_")], span: sp() }]));
    assert_eq!(source_of(vec![assign("r", in_list)]), "r = f([1, w])\n");
}

#[test]
fn nested_placeholders_count_together() {
    let at = |line: usize, column: usize| SourceSpan {
        start: snail::SourcePos { offset: 0, line, column },
        end: snail::SourcePos { offset: 0, line, column },
    };
    let first = Expr::Name { name: "_".to_string(), span: at(3, 9) };
    let deep = call("g", vec![num("1"), first]);
    let two = pipe(name("w"), call("f", vec![deep, name("_")]));
    let program = Program { stmts: vec![assign("r", two)], span: sp() };
    let err = lower_program(&program).unwrap_err();
    assert_eq!(err.message, "only one `_` placeholder is allowed in a piped call; the first is at 3:9");
}

#[test]
fn piping_into_a_command_feeds_its_input() {
    let cmd = Expr::Subprocess {
        kind: SubprocessKind::Capture,
        parts: vec![SubprocessPart::Text("grep ".to_string()), SubprocessPart::Expr(Box::new(name("p")))],
        span: sp(),
    };
    let pipe = Expr::Binary { left: Box::new(name("data")), op: BinaryOp::Pipeline, right: Box::new(cmd), span: sp() };
    let src = source_of(vec![assign("out", pipe)]);
    assert!(src.starts_with("import subprocess\n"));
    assert!(src.ends_with("\n\nout = __SnailSubprocessCapture(f\"grep {p}\")(data)\n"));
    assert!(src.contains("    def __call__(self, input_data=None):\n"));
}

#[test]
fn a_lone_command_runs_without_input() {
    let cmd = Expr::Subprocess {
        kind: SubprocessKind::Status,
        parts: vec![SubprocessPart::Text("make".to_string())],
        span: sp(),
    };
    let src = source_of(vec![assign("code", cmd)]);
    assert!(src.ends_with("\n\ncode = __SnailSubprocessStatus(f\"make\")()\n"));
}

#[test]
fn structured_accessor_builds_an_accessor_object() {
    let acc = Expr::StructuredAccessor { query: "foo.bar".to_string(), span: sp() };
    let src = source_of(vec![assign("q", acc)]);
    assert!(src.ends_with("\n\nq = __SnailStructuredAccessor(\"foo.bar\")\n"));
}

#[test]
fn compound_expression_yields_its_last_value() {
    let compound = Expr::Compound { expressions: vec![name("a"), call("f", vec![])], span: sp() };
    assert_eq!(source_of(vec![assign("v", compound)]), "v = (a, f())[-1]\n");
}

#[test]
fn try_fallback_receives_the_exception() {
    let expr = Expr::TryExpr {
        expr: Box::new(call("risky", vec![])),
        fallback: Some(Box::new(Expr::Attribute { value: Box::new(name("$e")), attr: "args".to_string(), span: sp() })),
        span: sp(),
    };
    let src = source_of(vec![assign("r", expr)]);
    assert!(src.ends_with(
        "\n\nr = __snail_compact_try(lambda: risky(), lambda __snail_compact_exc: __snail_compact_exc.args)\n"
    ));
}

#[test]
fn comprehensions_and_conditionals_are_written() {
    let comp = Expr::ListComp {
        element: Box::new(name("x")),
        target: "x".to_string(),
        iter: Box::new(name("xs")),
        ifs: vec![name("x")],
        span: sp(),
    };
    let cond = Expr::IfExpr {
        test: Box::new(name("c")),
        body: Box::new(num("1")),
        orelse: Box::new(Expr::NoneLiteral { span: sp() }),
        span: sp(),
    };
    let dict = Expr::Dict { entries: vec![(num("1"), name("a"))], span: sp() };
    assert_eq!(
        source_of(vec![assign("l", comp), assign("v", cond), assign("d", dict)]),
        "l = [x for x in xs if x]\nv = (1 if c else None)\nd = {1: a}\n"
    );
}

#[test]
fn try_helper_gives_none_without_a_fallback() {
    let expr = Expr::TryExpr { expr: Box::new(call("risky", vec![])), fallback: None, span: sp() };
    let src = source_of(vec![assign("r", expr)]);
    assert!(src.starts_with(
        "def __snail_compact_try(expr_fn, fallback_fn=None):\n    try:\n        return expr_fn()\n    except Exception as __snail_compact_exc:\n        if fallback_fn is None:\n            fallback_member = getattr(__snail_compact_exc, \"__fallback__\", None)\n            if callable(fallback_member):\n                return fallback_member()\n            return None\n        return fallback_fn(__snail_compact_exc)\n"
    ));
}

#[test]
fn regex_search_helper_returns_the_groups() {
    let m = Expr::Regex { pattern: snail::RegexPattern::Literal("a(b)".to_string()), span: sp() };
    let src = source_of(vec![assign("p", m)]);
    assert!(src.starts_with(
        "import re\n\ndef __snail_regex_search(value, pattern):\n    found = re.search(pattern, value)\n    if found is None:\n        return ()\n    return (found.group(0),) + found.groups()\n"
    ));
    assert!(src.contains("\ndef __snail_regex_compile(pattern):\n    return __SnailRegex(re.compile(pattern))\n"));
    assert!(src.ends_with("\n\np = __snail_regex_compile(r\"a(b)\")\n"));
}

#[test]
fn js_brings_the_json_helpers() {
    let src = source_of(vec![assign("d", call("js", vec![name("text")]))]);
    assert!(src.contains("\ndef js(input=_sys.stdin):\n"));
    assert!(src.contains("            data = [_json.loads(row) for row in rows]\n"));
    assert!(src.ends_with("\n\nd = js(text)\n"));
}
