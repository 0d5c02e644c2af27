//! Lowering of map mode: a `files` loop that runs its body once per input
//! file, with `$src` bound to the file's path, `$fd` to a lazily opened file
//! and `$text` to a lazy view of its text.
use vstd::prelude::*;
use crate::ast::{Expr, SourceSpan, Stmt, StringDelimiter};
use crate::constants::{SNAIL_MAP_FD_PYVAR, SNAIL_MAP_SRC_PYVAR, SNAIL_MAP_TEXT_PYVAR};
use crate::lower::{
    LowerError, block_fault, call1, pos_arg, exprs_fault, fault_message, first_fault, lower_block_spec,
    lower_exprs, lower_exprs_spec, py_name, reportable, spec_call, spec_name, spec_pos, LowerFault,
};
use crate::lower_awk::{
    assign_name, attr_expr, import_stmt, number_expr, one_stmt, spec_assign, spec_attr, spec_import,
    spec_number, spec_str, string_expr,
};
use crate::lower_stmt::lower_block;
use crate::pyast::{
    PyArgument, PyExpr, PyStmt, PyWithItem, SpecPyExpr, SpecPyStmt, SpecPyWithItem, view_exprs,
    view_stmts,
};

verus! {

pub const SNAIL_LAZY_FILE_CLASS: &'static str = "__SnailLazyFile";
pub const SNAIL_LAZY_TEXT_CLASS: &'static str = "__SnailLazyText";
pub const SNAIL_NORMALIZE_SOURCES_HELPER: &'static str = "__snail_normalize_sources";

/// `__SnailLazyFile(__snail_src, "r")`.
pub open spec fn lazy_file_spec(span: SourceSpan) -> SpecPyExpr {
    spec_call(
        spec_name(SNAIL_LAZY_FILE_CLASS@, span),
        seq![spec_pos(spec_name(SNAIL_MAP_SRC_PYVAR@, span), span), spec_pos(spec_str("r"@, span), span)],
        span,
    )
}

/// `__snail_text = __SnailLazyText(__snail_fd)`, then the body.
pub open spec fn files_with_body_spec(body: Vec<Stmt>, span: SourceSpan) -> Seq<SpecPyStmt> {
    seq![
        spec_assign(
            SNAIL_MAP_TEXT_PYVAR@,
            spec_call(
                spec_name(SNAIL_LAZY_TEXT_CLASS@, span),
                seq![spec_pos(spec_name(SNAIL_MAP_FD_PYVAR@, span), span)],
                span,
            ),
            span,
        ),
    ] + lower_block_spec(body)
}

/// `for __snail_src in <iter>:` around
/// `with __SnailLazyFile(__snail_src, "r") as __snail_fd:` around the body.
pub open spec fn files_loop_spec(iter: SpecPyExpr, body: Vec<Stmt>, span: SourceSpan) -> SpecPyStmt {
    SpecPyStmt::For {
        target: spec_name(SNAIL_MAP_SRC_PYVAR@, span),
        iter,
        body: seq![
            SpecPyStmt::With {
                items: seq![
                    SpecPyWithItem {
                        context: lazy_file_spec(span),
                        target: Some(spec_name(SNAIL_MAP_FD_PYVAR@, span)),
                        span,
                    },
                ],
                body: files_with_body_spec(body, span),
                span,
            },
        ],
        orelse: Seq::empty(),
        span,
    }
}

/// `sys.argv[1:]`: the paths given on the command line.
pub open spec fn argv_paths_spec(span: SourceSpan) -> SpecPyExpr {
    SpecPyExpr::Index {
        value: Box::new(spec_attr(spec_name("sys"@, span), "argv"@, span)),
        index: Box::new(
            SpecPyExpr::Slice {
                start: Some(Box::new(spec_number("1"@, span))),
                end: None,
                span,
            },
        ),
        span,
    }
}

/// A `files` statement: with no sources, `import sys` and a loop over the
/// command line's paths; with one source, a loop over
/// `__snail_normalize_sources(source)`; with several, a loop over the list
/// of them.
pub open spec fn files_stmt_spec(sources: Vec<Expr>, body: Vec<Stmt>, span: SourceSpan) -> Seq<SpecPyStmt> {
    if sources.len() == 0 {
        seq![spec_import("sys"@, span), files_loop_spec(argv_paths_spec(span), body, span)]
    } else if sources.len() == 1 {
        seq![
            files_loop_spec(
                spec_call(
                    spec_name(SNAIL_NORMALIZE_SOURCES_HELPER@, span),
                    seq![spec_pos(lower_exprs_spec(sources, None)[0], span)],
                    span,
                ),
                body,
                span,
            ),
        ]
    } else {
        seq![
            files_loop_spec(
                SpecPyExpr::List { elements: lower_exprs_spec(sources, None), span },
                body,
                span,
            ),
        ]
    }
}

/// The first fault of a `files` statement: in its sources, then in its body.
pub open spec fn files_fault(sources: Seq<Expr>, body: Seq<Stmt>) -> Option<LowerFault> {
    first_fault(exprs_fault(sources, 0, None), block_fault(body, 0))
}

fn argv_paths(span: SourceSpan) -> (r: PyExpr)
    ensures
        r@ == argv_paths_spec(span),
{
    let argv = attr_expr(py_name("sys", span), "argv", span);
    let one = number_expr("1", span);
    let ghost one_view = one@;
    let slice = PyExpr::Slice { start: Some(Box::new(one)), end: None, span };
    assert(slice@ == SpecPyExpr::Slice { start: Some(Box::new(one_view)), end: None, span });
    let r = PyExpr::Index { value: Box::new(argv), index: Box::new(slice), span };
    assert(r@ == argv_paths_spec(span));
    r
}

fn lazy_file(span: SourceSpan) -> (r: PyExpr)
    ensures
        r@ == lazy_file_spec(span),
{
    let mut file_args: Vec<PyArgument> = Vec::new();
    file_args.push(pos_arg(py_name(SNAIL_MAP_SRC_PYVAR, span), span));
    file_args.push(pos_arg(string_expr("r", span), span));
    assert(file_args@[0]@ == spec_pos(spec_name(SNAIL_MAP_SRC_PYVAR@, span), span));
    assert(file_args@[1]@ == spec_pos(spec_str("r"@, span), span));
    let lazy = PyExpr::Call { func: Box::new(py_name(SNAIL_LAZY_FILE_CLASS, span)), args: file_args, span };
    assert(lazy@->Call_args =~= seq![
        spec_pos(spec_name(SNAIL_MAP_SRC_PYVAR@, span), span),
        spec_pos(spec_str("r"@, span), span),
    ]);
    lazy
}

fn files_with_body(body: &Vec<Stmt>, span: SourceSpan) -> (r: Result<Vec<PyStmt>, LowerError>)
    requires
        reportable(block_fault(body@, 0)),
    ensures
        r is Ok <==> block_fault(body@, 0) is None,
        r matches Ok(v) ==> view_stmts(v) == files_with_body_spec(*body, span),
        r matches Err(err) ==> err.message@ == fault_message(block_fault(body@, 0).unwrap()),
{
    let text = call1(py_name(SNAIL_LAZY_TEXT_CLASS, span), py_name(SNAIL_MAP_FD_PYVAR, span), span);
    let mut with_body = one_stmt(assign_name(SNAIL_MAP_TEXT_PYVAR, text, span));
    let ghost head = view_stmts(with_body);
    let mut user = lower_block(body)?;
    let ghost tail = view_stmts(user);
    with_body.append(&mut user);
    assert(view_stmts(with_body) =~= head + tail);
    Ok(with_body)
}

fn files_with(body: Vec<PyStmt>, span: SourceSpan) -> (r: PyStmt)
    ensures
        r@ == (SpecPyStmt::With {
            items: seq![
                SpecPyWithItem {
                    context: lazy_file_spec(span),
                    target: Some(spec_name(SNAIL_MAP_FD_PYVAR@, span)),
                    span,
                },
            ],
            body: view_stmts(body),
            span,
        }),
{
    let mut items: Vec<PyWithItem> = Vec::new();
    items.push(PyWithItem { context: lazy_file(span), target: Some(py_name(SNAIL_MAP_FD_PYVAR, span)), span });
    let ghost bv = view_stmts(body);
    let with = PyStmt::With { items, body, span };
    assert(with@->With_items =~= seq![
        SpecPyWithItem {
            context: lazy_file_spec(span),
            target: Some(spec_name(SNAIL_MAP_FD_PYVAR@, span)),
            span,
        },
    ]);
    assert(with@->With_body =~= bv);
    with
}

fn files_loop(iter: PyExpr, body: &Vec<Stmt>, span: SourceSpan) -> (r: Result<PyStmt, LowerError>)
    requires
        reportable(block_fault(body@, 0)),
    ensures
        r is Ok <==> block_fault(body@, 0) is None,
        r matches Ok(s) ==> s@ == files_loop_spec(iter@, *body, span),
        r matches Err(err) ==> err.message@ == fault_message(block_fault(body@, 0).unwrap()),
{
    let with_body = files_with_body(body, span)?;
    let with = files_with(with_body, span);
    let empty: Vec<PyStmt> = Vec::new();
    assert(view_stmts(empty) =~= Seq::<SpecPyStmt>::empty());
    let ghost iv = iter@;
    let r = PyStmt::For {
        target: py_name(SNAIL_MAP_SRC_PYVAR, span),
        iter,
        body: one_stmt(with),
        orelse: empty,
        span,
    };
    assert(r@ == files_loop_spec(iv, *body, span));
    Ok(r)
}

/// Lowers a `files` statement of map mode.
pub fn lower_files_stmt(sources: &Vec<Expr>, body: &Vec<Stmt>, span: SourceSpan) -> (r: Result<
    Vec<PyStmt>,
    LowerError,
>)
    requires
        reportable(files_fault(sources@, body@)),
    ensures
        r is Ok <==> files_fault(sources@, body@) is None,
        r matches Ok(v) ==> view_stmts(v) == files_stmt_spec(*sources, *body, span),
        r matches Err(err) ==> err.message@ == fault_message(files_fault(sources@, body@).unwrap()),
{
    if sources.len() == 0 {
        let import = import_stmt("sys", span);
        let lp = files_loop(argv_paths(span), body, span)?;
        let mut out: Vec<PyStmt> = Vec::new();
        out.push(import);
        out.push(lp);
        assert(view_stmts(out) =~= files_stmt_spec(*sources, *body, span));
        return Ok(out);
    }
    let mut lowered = lower_exprs(sources, None)?;
    let ghost lv = view_exprs(lowered);
    assert(lv.len() == sources.len());
    assert(lowered.len() == sources.len());
    let iter = if lowered.len() == 1 {
        let only = lowered.pop().unwrap();
        assert(only@ == lv[0]);
        let c = call1(py_name(SNAIL_NORMALIZE_SOURCES_HELPER, span), only, span);
        assert(c@ == spec_call(
            spec_name(SNAIL_NORMALIZE_SOURCES_HELPER@, span),
            seq![spec_pos(lower_exprs_spec(*sources, None)[0], span)],
            span,
        ));
        c
    } else {
        let l = PyExpr::List { elements: lowered, span };
        assert(l@->List_elements =~= lv);
        assert(l@ == SpecPyExpr::List { elements: lower_exprs_spec(*sources, None), span });
        l
    };
    let ghost it = iter@;
    let lp = files_loop(iter, body, span)?;
    let out = one_stmt(lp);
    if sources.len() == 1 {
        assert(view_stmts(out) =~= files_stmt_spec(*sources, *body, span));
    } else {
        assert(view_stmts(out) =~= files_stmt_spec(*sources, *body, span));
    }
    Ok(out)
}

} // verus!
