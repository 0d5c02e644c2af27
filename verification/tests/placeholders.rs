use snail::ast::{Argument, Expr, SourcePos, SourceSpan};
use snail::fill::fill_placeholders;
use snail::placeholder::count_placeholders;
use snail::pyast::{PyArgument, PyExpr};

fn at(line: usize, column: usize) -> SourceSpan {
    SourceSpan {
        start: SourcePos { offset: 0, line, column },
        end: SourcePos { offset: 0, line, column },
    }
}

fn name(n: &str, span: SourceSpan) -> Expr {
    Expr::Name { name: n.to_string(), span }
}

fn call(func: &str, args: Vec<Expr>) -> Expr {
    Expr::Call {
        func: Box::new(name(func, at(0, 0))),
        args: args.into_iter().map(|value| Argument::Positional { value, span: at(0, 0) }).collect(),
        span: at(0, 0),
    }
}

fn py_name(n: &str) -> PyExpr {
    PyExpr::Name { id: n.to_string(), span: at(0, 0) }
}

#[test]
fn no_placeholder_is_counted_as_none() {
    assert_eq!(count_placeholders(&call("f", vec![name("x", at(1, 1))])), (0, None));
}

#[test]
fn placeholders_are_found_at_any_depth() {
    let e = call("f", vec![call("g", vec![name("_", at(2, 4))])]);
    assert_eq!(count_placeholders(&e), (1, Some(at(2, 4))));
    let list = Expr::List { elements: vec![name("_", at(1, 2)), name("_", at(1, 5))], span: at(0, 0) };
    assert_eq!(count_placeholders(&list), (2, Some(at(1, 2))));
}

#[test]
fn more_than_two_placeholders_count_as_two() {
    let e = Expr::Tuple {
        elements: vec![name("_", at(1, 1)), name("_", at(1, 3)), name("_", at(1, 5))],
        span: at(0, 0),
    };
    assert_eq!(count_placeholders(&e), (2, Some(at(1, 1))));
}

#[test]
fn filling_replaces_each_placeholder_name() {
    let p = PyExpr::Call {
        func: Box::new(py_name("f")),
        args: vec![PyArgument::Positional { value: py_name("_"), span: at(0, 0) }],
        span: at(0, 0),
    };
    let filled = fill_placeholders(&p, &py_name("w"), true);
    let expected = PyExpr::Call {
        func: Box::new(py_name("f")),
        args: vec![PyArgument::Positional { value: py_name("w"), span: at(0, 0) }],
        span: at(0, 0),
    };
    assert_eq!(filled, expected);
    assert_eq!(fill_placeholders(&p, &py_name("w"), false), p);
}
