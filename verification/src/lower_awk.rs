//! Lowering of awk-mode programs: the begin blocks, a loop over the input
//! files and their lines that runs the rules, and the end blocks.
use vstd::prelude::*;
use crate::ast::{expr_span_of, AwkProgram, AwkRule, Expr, RegexPattern, SourceSpan, Stmt, StringDelimiter};
use crate::lower::{
    LowerError, SNAIL_AWK_FIELDS_PYVAR, SNAIL_AWK_FNR_PYVAR, SNAIL_AWK_LINE_PYVAR,
    SNAIL_AWK_MATCH_PYVAR, SNAIL_AWK_NR_PYVAR, SNAIL_AWK_PATH_PYVAR, SNAIL_REGEX_SEARCH, block_fault,
    call1, call2, expr_fault, fault_message, first_fault, lower_block_spec, lower_expr,
    lower_expr_spec, lower_pattern_spec, lower_regex_match, lower_regex_pattern_expr, pattern_fault,
    pos_arg, py_name, reportable, spec_call, spec_name, spec_pos, LowerFault,
};
use crate::lower_stmt::lower_block;
use crate::pyast::{
    PyArgument, PyBinaryOp, PyCompareOp, PyExpr, PyImportName, PyModule, PyStmt, PyUnaryOp,
    PyWithItem, SpecPyExpr, view_exprs, SpecPyImportName, SpecPyModule, SpecPyStmt, SpecPyWithItem, view_stmts,
};
use crate::text::owned;

verus! {

// ---------------------------------------------------------------------------
// The model of the awk scaffolding.

/// A double-quoted, non-raw Python string literal.
pub open spec fn spec_str(value: Seq<char>, span: SourceSpan) -> SpecPyExpr {
    SpecPyExpr::String { value, raw: false, delimiter: StringDelimiter::Double, span }
}

pub open spec fn spec_number(value: Seq<char>, span: SourceSpan) -> SpecPyExpr {
    SpecPyExpr::Number { value, span }
}

pub open spec fn spec_attr(value: SpecPyExpr, attr: Seq<char>, span: SourceSpan) -> SpecPyExpr {
    SpecPyExpr::Attribute { value: Box::new(value), attr, span }
}

/// `name = value`.
pub open spec fn spec_assign(name: Seq<char>, value: SpecPyExpr, span: SourceSpan) -> SpecPyStmt {
    SpecPyStmt::Assign { targets: seq![spec_name(name, span)], value, span }
}

/// An expression statement that is not ended by a semicolon.
pub open spec fn spec_expr_stmt(value: SpecPyExpr, span: SourceSpan) -> SpecPyStmt {
    SpecPyStmt::Expr { value, semicolon_terminated: false, span }
}

/// `import name`.
pub open spec fn spec_import(name: Seq<char>, span: SourceSpan) -> SpecPyStmt {
    SpecPyStmt::Import {
        names: seq![SpecPyImportName { name: seq![name], asname: None, span }],
        span,
    }
}

/// `print(<line>)`: what a rule without an action does.
pub open spec fn default_print_spec(span: SourceSpan) -> SpecPyStmt {
    spec_expr_stmt(
        spec_call(
            spec_name("print"@, span),
            seq![spec_pos(spec_name(SNAIL_AWK_LINE_PYVAR@, span), span)],
            span,
        ),
        span,
    )
}

/// `isinstance(__snail_last_result, str)`.
pub open spec fn is_string_spec(span: SourceSpan) -> SpecPyExpr {
    spec_call(
        spec_name("isinstance"@, span),
        seq![spec_pos(spec_name("__snail_last_result"@, span), span), spec_pos(spec_name("str"@, span), span)],
        span,
    )
}

/// `__snail_last_result is not None`.
pub open spec fn is_not_none_spec(span: SourceSpan) -> SpecPyExpr {
    SpecPyExpr::Compare {
        left: Box::new(spec_name("__snail_last_result"@, span)),
        ops: seq![PyCompareOp::Is],
        comparators: seq![
            SpecPyExpr::Unary {
                op: PyUnaryOp::Not,
                operand: Box::new(SpecPyExpr::NoneLiteral { span }),
                span,
            },
        ],
        span,
    }
}

/// `print(__snail_last_result)`.
pub open spec fn print_last_spec(span: SourceSpan) -> SpecPyStmt {
    spec_expr_stmt(
        spec_call(spec_name("print"@, span), seq![spec_pos(spec_name("__snail_last_result"@, span), span)], span),
        span,
    )
}

/// `import pprint` and `pprint.pprint(__snail_last_result)`.
pub open spec fn pprint_last_spec(span: SourceSpan) -> Seq<SpecPyStmt> {
    seq![
        spec_import("pprint"@, span),
        spec_expr_stmt(
            spec_call(
                spec_attr(spec_name("pprint"@, span), "pprint"@, span),
                seq![spec_pos(spec_name("__snail_last_result"@, span), span)],
                span,
            ),
            span,
        ),
    ]
}

/// The statements that replace a final bare expression `e` when results are
/// printed: `r = e`, then print `r` if it is a string, or pretty-print it if
/// it is not `None`.
pub open spec fn auto_print_tail(value: SpecPyExpr, span: SourceSpan) -> Seq<SpecPyStmt> {
    seq![
        spec_assign("__snail_last_result"@, value, span),
        SpecPyStmt::If {
            test: is_string_spec(span),
            body: seq![print_last_spec(span)],
            orelse: seq![
                SpecPyStmt::If {
                    test: is_not_none_spec(span),
                    body: pprint_last_spec(span),
                    orelse: Seq::empty(),
                    span,
                },
            ],
            span,
        },
    ]
}

/// A block as it runs with results printed: unchanged unless printing is on
/// and the block ends in an expression statement without a semicolon, whose
/// value is then printed.
pub open spec fn auto_print_spec(block: Seq<SpecPyStmt>, auto_print: bool) -> Seq<SpecPyStmt> {
    if !auto_print || block.len() == 0 {
        block
    } else {
        match block.last() {
            SpecPyStmt::Expr { value, semicolon_terminated, span } => if semicolon_terminated {
                block
            } else {
                block.drop_last() + auto_print_tail(value, span)
            },
            _ => block,
        }
    }
}

/// The `__snail_regex_search(...)` call that a regex pattern of a rule makes:
/// a bare regex is matched against the current line.
pub open spec fn rule_match_spec(p: Expr) -> Option<SpecPyExpr> {
    match p {
        Expr::RegexMatch { value, pattern, span } => Some(
            spec_call(
                spec_name(SNAIL_REGEX_SEARCH@, span),
                seq![
                    spec_pos(lower_expr_spec(*value, None), span),
                    spec_pos(lower_pattern_spec(pattern, span, None), span),
                ],
                span,
            ),
        ),
        Expr::Regex { pattern, span } => Some(
            spec_call(
                spec_name(SNAIL_REGEX_SEARCH@, span),
                seq![
                    spec_pos(spec_name(SNAIL_AWK_LINE_PYVAR@, span), span),
                    spec_pos(lower_pattern_spec(pattern, span, None), span),
                ],
                span,
            ),
        ),
        _ => None,
    }
}

/// What a rule does when it applies: its action with results printed, or
/// printing the line when it has none.
pub open spec fn rule_action_spec(rule: AwkRule, auto_print: bool) -> Seq<SpecPyStmt> {
    match rule.action {
        Some(block) => auto_print_spec(lower_block_spec(block), auto_print),
        None => seq![default_print_spec(rule.span)],
    }
}

/// The statements of one rule: the action alone without a pattern; with a
/// regex pattern, the match kept in the match variable and the action run
/// when it matched; with another pattern, the action run when it holds.
pub open spec fn rule_spec(rule: AwkRule, auto_print: bool) -> Seq<SpecPyStmt> {
    let action = rule_action_spec(rule, auto_print);
    match rule.pattern {
        None => action,
        Some(p) => match rule_match_spec(p) {
            Some(m) => seq![
                spec_assign(SNAIL_AWK_MATCH_PYVAR@, m, expr_span_of(p)),
                SpecPyStmt::If {
                    test: spec_name(SNAIL_AWK_MATCH_PYVAR@, expr_span_of(p)),
                    body: action,
                    orelse: Seq::empty(),
                    span: rule.span,
                },
            ],
            None => seq![
                SpecPyStmt::If {
                    test: lower_expr_spec(p, None),
                    body: action,
                    orelse: Seq::empty(),
                    span: rule.span,
                },
            ],
        },
    }
}

/// The statements of the rules, in order.
pub open spec fn rules_spec(s: Seq<AwkRule>, auto_print: bool) -> Seq<SpecPyStmt>
    decreases s.len(),
{
    if s.len() == 0 {
        Seq::empty()
    } else {
        rules_spec(s.drop_last(), auto_print) + rule_spec(s.last(), auto_print)
    }
}

/// A rule fails where its action fails, and otherwise where its pattern does.
pub open spec fn rule_fault(rule: AwkRule) -> Option<LowerFault> {
    first_fault(
        match rule.action {
            Some(block) => block_fault(block@, 0),
            None => None,
        },
        match rule.pattern {
            Some(p) => expr_fault(p, None),
            None => None,
        },
    )
}

/// The first fault of the rules from the `i`-th on.
pub open spec fn rules_fault(s: Seq<AwkRule>, i: int) -> Option<LowerFault>
    decreases s.len() - i,
{
    if 0 <= i < s.len() {
        first_fault(rule_fault(s[i]), rules_fault(s, i + 1))
    } else {
        None
    }
}

/// `name = name + 1`.
pub open spec fn incr_spec(name: Seq<char>, span: SourceSpan) -> SpecPyStmt {
    spec_assign(
        name,
        SpecPyExpr::Binary {
            left: Box::new(spec_name(name, span)),
            op: PyBinaryOp::Add,
            right: Box::new(spec_number("1"@, span)),
            span,
        },
        span,
    )
}

/// The statements that start each pass of the line loop: count the line,
/// strip its newline, split it into fields and set the awk variables.
pub open spec fn line_setup_spec(span: SourceSpan) -> Seq<SpecPyStmt> {
    seq![
        incr_spec("__snail_nr"@, span),
        incr_spec("__snail_fnr"@, span),
        spec_assign(
            SNAIL_AWK_LINE_PYVAR@,
            spec_call(
                spec_attr(spec_name("__snail_raw"@, span), "rstrip"@, span),
                seq![spec_pos(spec_str("\\n"@, span), span)],
                span,
            ),
            span,
        ),
        spec_assign(
            SNAIL_AWK_FIELDS_PYVAR@,
            spec_call(spec_attr(spec_name(SNAIL_AWK_LINE_PYVAR@, span), "split"@, span), Seq::empty(), span),
            span,
        ),
        spec_assign(SNAIL_AWK_NR_PYVAR@, spec_name("__snail_nr"@, span), span),
        spec_assign(SNAIL_AWK_FNR_PYVAR@, spec_name("__snail_fnr"@, span), span),
        spec_assign(SNAIL_AWK_PATH_PYVAR@, spec_name("__snail_path"@, span), span),
    ]
}

/// The loop over the lines of `iter` that runs the rules.
pub open spec fn line_loop_spec(
    rules: Seq<AwkRule>,
    span: SourceSpan,
    iter: SpecPyExpr,
    auto_print: bool,
) -> SpecPyStmt {
    SpecPyStmt::For {
        target: spec_name("__snail_raw"@, span),
        iter,
        body: line_setup_spec(span) + rules_spec(rules, auto_print),
        orelse: Seq::empty(),
        span,
    }
}

/// `__snail_path == "-"`.
pub open spec fn is_stdin_spec(span: SourceSpan) -> SpecPyExpr {
    SpecPyExpr::Compare {
        left: Box::new(spec_name("__snail_path"@, span)),
        ops: seq![PyCompareOp::Eq],
        comparators: seq![spec_str("-"@, span)],
        span,
    }
}

/// `with open(__snail_path) as __snail_file:` around the line loop.
pub open spec fn open_file_spec(rules: Seq<AwkRule>, span: SourceSpan, auto_print: bool) -> SpecPyStmt {
    SpecPyStmt::With {
        items: seq![
            SpecPyWithItem {
                context: spec_call(
                    spec_name("open"@, span),
                    seq![spec_pos(spec_name("__snail_path"@, span), span)],
                    span,
                ),
                target: Some(spec_name("__snail_file"@, span)),
                span,
            },
        ],
        body: seq![line_loop_spec(rules, span, spec_name("__snail_file"@, span), auto_print)],
        span,
    }
}

/// The body of the loop over the input files: reset the per-file count, then
/// run the line loop over standard input for `-` and over the opened file
/// otherwise.
pub open spec fn file_loop_spec(rules: Seq<AwkRule>, span: SourceSpan, auto_print: bool) -> Seq<SpecPyStmt> {
    seq![
        spec_assign("__snail_fnr"@, spec_number("0"@, span), span),
        SpecPyStmt::If {
            test: is_stdin_spec(span),
            body: seq![
                spec_assign("__snail_file"@, spec_attr(spec_name("sys"@, span), "stdin"@, span), span),
                line_loop_spec(rules, span, spec_name("__snail_file"@, span), auto_print),
            ],
            orelse: seq![open_file_spec(rules, span, auto_print)],
            span,
        },
    ]
}

/// The blocks, each lowered with results printed, one after another.
pub open spec fn blocks_spec(s: Seq<Vec<Stmt>>, auto_print: bool) -> Seq<SpecPyStmt>
    decreases s.len(),
{
    if s.len() == 0 {
        Seq::empty()
    } else {
        blocks_spec(s.drop_last(), auto_print) + auto_print_spec(lower_block_spec(s.last()), auto_print)
    }
}

/// The first fault of the blocks from the `i`-th on.
pub open spec fn blocks_fault(s: Seq<Vec<Stmt>>, i: int) -> Option<LowerFault>
    decreases s.len() - i,
{
    if 0 <= i < s.len() {
        first_fault(block_fault(s[i]@, 0), blocks_fault(s, i + 1))
    } else {
        None
    }
}

/// `sys.argv[1:] or ["-"]`: the input files, standard input when none is named.
pub open spec fn files_spec(span: SourceSpan) -> SpecPyExpr {
    SpecPyExpr::Binary {
        left: Box::new(
            SpecPyExpr::Index {
                value: Box::new(spec_attr(spec_name("sys"@, span), "argv"@, span)),
                index: Box::new(
                    SpecPyExpr::Slice { start: Some(Box::new(spec_number("1"@, span))), end: None, span },
                ),
                span,
            },
        ),
        op: PyBinaryOp::Or,
        right: Box::new(SpecPyExpr::List { elements: seq![spec_str("-"@, span)], span }),
        span,
    }
}

/// Where lowering an awk program fails: in a begin block, in a rule, or in
/// an end block, the first one in that order.
pub open spec fn awk_program_fault(p: AwkProgram) -> Option<LowerFault> {
    first_fault(
        blocks_fault(p.begin_blocks@, 0),
        first_fault(rules_fault(p.rules@, 0), blocks_fault(p.end_blocks@, 0)),
    )
}

/// The Python module of an awk program: `import sys`, the begin blocks, the
/// line counter, the loop over the input files, and the end blocks.
pub open spec fn lower_awk_spec(p: AwkProgram, auto_print: bool) -> SpecPyModule {
    let span = p.span;
    SpecPyModule {
        body: seq![spec_import("sys"@, span)] + blocks_spec(p.begin_blocks@, auto_print) + seq![
            spec_assign("__snail_nr"@, spec_number("0"@, span), span),
            SpecPyStmt::For {
                target: spec_name("__snail_path"@, span),
                iter: files_spec(span),
                body: file_loop_spec(p.rules@, span, auto_print),
                orelse: Seq::empty(),
                span,
            },
        ] + blocks_spec(p.end_blocks@, auto_print),
        span,
    }
}

// ---------------------------------------------------------------------------
// Builders.

pub(crate) fn string_expr(value: &str, span: SourceSpan) -> (r: PyExpr)
    ensures
        r@ == spec_str(value@, span),
{
    PyExpr::String { value: owned(value), raw: false, delimiter: StringDelimiter::Double, span }
}

pub(crate) fn number_expr(value: &str, span: SourceSpan) -> (r: PyExpr)
    ensures
        r@ == spec_number(value@, span),
{
    PyExpr::Number { value: owned(value), span }
}

pub(crate) fn attr_expr(value: PyExpr, attr: &str, span: SourceSpan) -> (r: PyExpr)
    ensures
        r@ == spec_attr(value@, attr@, span),
{
    PyExpr::Attribute { value: Box::new(value), attr: owned(attr), span }
}

pub(crate) fn assign_name(name: &str, value: PyExpr, span: SourceSpan) -> (r: PyStmt)
    ensures
        r@ == spec_assign(name@, value@, span),
{
    let mut targets: Vec<PyExpr> = Vec::new();
    targets.push(py_name(name, span));
    let r = PyStmt::Assign { targets, value, span };
    assert(r@->Assign_targets =~= seq![spec_name(name@, span)]);
    r
}

fn expr_stmt(value: PyExpr, span: SourceSpan) -> (r: PyStmt)
    ensures
        r@ == spec_expr_stmt(value@, span),
{
    PyStmt::Expr { value, semicolon_terminated: false, span }
}

pub(crate) fn import_stmt(name: &str, span: SourceSpan) -> (r: PyStmt)
    ensures
        r@ == spec_import(name@, span),
{
    let mut parts: Vec<String> = Vec::new();
    parts.push(owned(name));
    let mut names: Vec<PyImportName> = Vec::new();
    names.push(PyImportName { name: parts, asname: None, span });
    let r = PyStmt::Import { names, span };
    assert(r@->Import_names[0].name =~= seq![name@]);
    assert(r@->Import_names =~= seq![SpecPyImportName { name: seq![name@], asname: None, span }]);
    r
}

pub(crate) fn one_stmt(s: PyStmt) -> (r: Vec<PyStmt>)
    ensures
        view_stmts(r) == seq![s@],
{
    let mut r: Vec<PyStmt> = Vec::new();
    r.push(s);
    assert(view_stmts(r) =~= seq![s@]);
    r
}

fn two_stmts(a: PyStmt, b: PyStmt) -> (r: Vec<PyStmt>)
    ensures
        view_stmts(r) == seq![a@, b@],
{
    let mut r: Vec<PyStmt> = Vec::new();
    r.push(a);
    r.push(b);
    assert(view_stmts(r) =~= seq![a@, b@]);
    r
}

/// `print(<line>)`, the action of a rule written without one.
pub fn awk_default_print(span: SourceSpan) -> (r: PyStmt)
    ensures
        r@ == default_print_spec(span),
{
    let call = call1(py_name("print", span), py_name(SNAIL_AWK_LINE_PYVAR, span), span);
    expr_stmt(call, span)
}

fn is_not_none_expr(span: SourceSpan) -> (r: PyExpr)
    ensures
        r@ == is_not_none_spec(span),
{
    let mut ops: Vec<PyCompareOp> = Vec::new();
    ops.push(PyCompareOp::Is);
    let mut comparators: Vec<PyExpr> = Vec::new();
    let none = PyExpr::NoneLiteral { span };
    assert(none@ == SpecPyExpr::NoneLiteral { span });
    let not_none = PyExpr::Unary { op: PyUnaryOp::Not, operand: Box::new(none), span };
    comparators.push(not_none);
    assert(not_none@ == SpecPyExpr::Unary {
        op: PyUnaryOp::Not,
        operand: Box::new(SpecPyExpr::NoneLiteral { span }),
        span,
    });
    assert(view_exprs(comparators) =~= seq![not_none@]);
    let r = PyExpr::Compare {
        left: Box::new(py_name("__snail_last_result", span)),
        ops,
        comparators,
        span,
    };
    assert(r@->Compare_ops =~= seq![PyCompareOp::Is]);
    assert(r@->Compare_comparators =~= seq![not_none@]);
    r
}

fn pprint_last_stmts(span: SourceSpan) -> (r: Vec<PyStmt>)
    ensures
        view_stmts(r) == pprint_last_spec(span),
{
    let callee = attr_expr(py_name("pprint", span), "pprint", span);
    let call = call1(callee, py_name("__snail_last_result", span), span);
    two_stmts(import_stmt("pprint", span), expr_stmt(call, span))
}

fn auto_print_tail_stmts(value: PyExpr, span: SourceSpan) -> (r: Vec<PyStmt>)
    ensures
        view_stmts(r) == auto_print_tail(value@, span),
{
    let assign = assign_name("__snail_last_result", value, span);
    let is_string = call2(
        py_name("isinstance", span),
        py_name("__snail_last_result", span),
        py_name("str", span),
        span,
    );
    let print_it = expr_stmt(call1(py_name("print", span), py_name("__snail_last_result", span), span), span);
    let empty: Vec<PyStmt> = Vec::new();
    assert(view_stmts(empty) =~= Seq::<SpecPyStmt>::empty());
    let inner = PyStmt::If { test: is_not_none_expr(span), body: pprint_last_stmts(span), orelse: empty, span };
    let outer = PyStmt::If { test: is_string, body: one_stmt(print_it), orelse: one_stmt(inner), span };
    two_stmts(assign, outer)
}

/// Makes a block print its result: where printing is on and the block ends
/// in an expression statement without a semicolon, that statement is
/// replaced by one that keeps the value and prints it.
pub fn wrap_block_with_auto_print(block: Vec<PyStmt>, auto_print: bool) -> (r: Vec<PyStmt>)
    ensures
        view_stmts(r) == auto_print_spec(view_stmts(block), auto_print),
{
    if !auto_print || block.len() == 0 {
        return block;
    }
    let ghost before = view_stmts(block);
    let n = block.len();
    let is_bare = match &block[n - 1] {
        PyStmt::Expr { semicolon_terminated, .. } => !*semicolon_terminated,
        _ => false,
    };
    assert(before.last() == block[n - 1]@);
    if !is_bare {
        return block;
    }
    let mut block = block;
    let last = block.pop().unwrap();
    assert(view_stmts(block) =~= before.drop_last());
    match last {
        PyStmt::Expr { value, span, .. } => {
            let tail = auto_print_tail_stmts(value, span);
            let ghost head = view_stmts(block);
            let ghost tail_model = view_stmts(tail);
            let mut tail = tail;
            block.append(&mut tail);
            assert(view_stmts(block) =~= head + tail_model);
            block
        },
        _ => block,
    }
}

/// The parts of a regex pattern of a rule: the value it is matched against
/// (`None` for the current line, which a bare regex stands for), the regex,
/// and the pattern's span. Other patterns have none.
pub fn regex_pattern_components(pattern: &Expr) -> (r: Option<(Option<&Expr>, &RegexPattern, SourceSpan)>)
    ensures
        r is Some <==> (pattern is Regex || pattern is RegexMatch),
        r matches Some((value, regex, span)) ==> span == expr_span_of(*pattern) && match *pattern {
            Expr::RegexMatch { value: v, pattern: p, .. } => value == Some(&*v) && *regex == p,
            Expr::Regex { pattern: p, .. } => value is None && *regex == p,
            _ => false,
        },
{
    match pattern {
        Expr::RegexMatch { value, pattern, span } => Some((Some(&**value), pattern, *span)),
        Expr::Regex { pattern, span } => Some((None, pattern, *span)),
        _ => None,
    }
}

fn lower_rule_action(rule: &AwkRule, auto_print: bool) -> (r: Result<Vec<PyStmt>, LowerError>)
    requires
        reportable(rule_fault(*rule)),
    ensures
        r is Ok <==> (rule.action matches Some(b) ==> block_fault(b@, 0) is None),
        r matches Ok(out) ==> view_stmts(out) == rule_action_spec(*rule, auto_print),
        r matches Err(err) ==> rule.action matches Some(b) && err.message@ == fault_message(
            block_fault(b@, 0).unwrap(),
        ),
{
    if rule.has_explicit_action() {
        match &rule.action {
            Some(block) => {
                let lowered = lower_block(block)?;
                Ok(wrap_block_with_auto_print(lowered, auto_print))
            },
            None => Err(LowerError::new("")),
        }
    } else {
        Ok(one_stmt(awk_default_print(rule.span)))
    }
}

fn guarded(test: PyExpr, action: Vec<PyStmt>, span: SourceSpan) -> (r: PyStmt)
    ensures
        r@ == (SpecPyStmt::If { test: test@, body: view_stmts(action), orelse: Seq::empty(), span }),
{
    let empty: Vec<PyStmt> = Vec::new();
    assert(view_stmts(empty) =~= Seq::<SpecPyStmt>::empty());
    PyStmt::If { test, body: action, orelse: empty, span }
}

/// Lowers one awk rule.
fn lower_awk_rule(rule: &AwkRule, auto_print: bool) -> (r: Result<Vec<PyStmt>, LowerError>)
    requires
        reportable(rule_fault(*rule)),
    ensures
        r is Ok <==> rule_fault(*rule) is None,
        r matches Ok(out) ==> view_stmts(out) == rule_spec(*rule, auto_print),
        r matches Err(err) ==> err.message@ == fault_message(rule_fault(*rule).unwrap()),
{
    let action = lower_rule_action(rule, auto_print)?;
    match &rule.pattern {
        None => Ok(action),
        Some(pattern) => {
            match regex_pattern_components(pattern) {
                Some((value, regex, span)) => {
                    let lowered_value = match value {
                        Some(v) => {
                            assert(expr_fault(*pattern, None) == first_fault(
                                expr_fault(*v, None),
                                pattern_fault(*regex, None),
                            ));
                            lower_expr(v)?
                        },
                        None => py_name(SNAIL_AWK_LINE_PYVAR, span),
                    };
                    let lowered_regex = lower_regex_pattern_expr(regex, span, None)?;
                    let call = call2(py_name(SNAIL_REGEX_SEARCH, span), lowered_value, lowered_regex, span);
                    let keep = assign_name(SNAIL_AWK_MATCH_PYVAR, call, span);
                    let test = guarded(py_name(SNAIL_AWK_MATCH_PYVAR, span), action, rule.span);
                    Ok(two_stmts(keep, test))
                },
                None => {
                    let test = lower_expr(pattern)?;
                    Ok(one_stmt(guarded(test, action, rule.span)))
                },
            }
        },
    }
}

/// Lowers the rules, in order, into the statements that run for each line.
pub fn lower_awk_rules_with_auto_print(rules: &Vec<AwkRule>, auto_print: bool) -> (r: Result<
    Vec<PyStmt>,
    LowerError,
>)
    requires
        reportable(rules_fault(rules@, 0)),
    ensures
        r is Ok <==> rules_fault(rules@, 0) is None,
        r matches Ok(out) ==> view_stmts(out) == rules_spec(rules@, auto_print),
        r matches Err(err) ==> err.message@ == fault_message(rules_fault(rules@, 0).unwrap()),
{
    let mut out: Vec<PyStmt> = Vec::new();
    let mut i: usize = 0;
    while i < rules.len()
        invariant
            i <= rules.len(),
            rules_fault(rules@, 0) == rules_fault(rules@, i as int),
            reportable(rules_fault(rules@, 0)),
            view_stmts(out) == rules_spec(rules@.take(i as int), auto_print),
        decreases rules.len() - i,
    {
        let lowered = lower_awk_rule(&rules[i], auto_print)?;
        let ghost before = view_stmts(out);
        let ghost added = view_stmts(lowered);
        let mut lowered = lowered;
        out.append(&mut lowered);
        assert(view_stmts(out) =~= before + added);
        assert(rules@.take(i + 1).drop_last() =~= rules@.take(i as int));
        i += 1;
    }
    assert(rules@.take(i as int) =~= rules@);
    Ok(out)
}

fn incr_stmt(name: &str, span: SourceSpan) -> (r: PyStmt)
    ensures
        r@ == incr_spec(name@, span),
{
    let sum = PyExpr::Binary {
        left: Box::new(py_name(name, span)),
        op: PyBinaryOp::Add,
        right: Box::new(number_expr("1", span)),
        span,
    };
    assign_name(name, sum, span)
}

fn line_setup_stmts(span: SourceSpan) -> (r: Vec<PyStmt>)
    ensures
        view_stmts(r) == line_setup_spec(span),
{
    let mut out: Vec<PyStmt> = Vec::new();
    out.push(incr_stmt("__snail_nr", span));
    out.push(incr_stmt("__snail_fnr", span));
    let rstrip = attr_expr(py_name("__snail_raw", span), "rstrip", span);
    let rstrip_call = call1(rstrip, string_expr("\\n", span), span);
    out.push(assign_name(SNAIL_AWK_LINE_PYVAR, rstrip_call, span));
    let split = attr_expr(py_name(SNAIL_AWK_LINE_PYVAR, span), "split", span);
    let split_call = PyExpr::Call { func: Box::new(split), args: Vec::new(), span };
    assert(split_call@->Call_args =~= Seq::empty());
    out.push(assign_name(SNAIL_AWK_FIELDS_PYVAR, split_call, span));
    out.push(assign_name(SNAIL_AWK_NR_PYVAR, py_name("__snail_nr", span), span));
    out.push(assign_name(SNAIL_AWK_FNR_PYVAR, py_name("__snail_fnr", span), span));
    out.push(assign_name(SNAIL_AWK_PATH_PYVAR, py_name("__snail_path", span), span));
    assert(view_stmts(out) =~= line_setup_spec(span));
    out
}

/// Builds the loop over the lines of `iter` that runs the rules.
fn lower_awk_line_loop_with_auto_print(
    program: &AwkProgram,
    span: SourceSpan,
    iter: PyExpr,
    auto_print: bool,
) -> (r: Result<PyStmt, LowerError>)
    requires
        reportable(rules_fault(program.rules@, 0)),
    ensures
        r is Ok <==> rules_fault(program.rules@, 0) is None,
        r matches Ok(s) ==> s@ == line_loop_spec(program.rules@, span, iter@, auto_print),
        r matches Err(err) ==> err.message@ == fault_message(rules_fault(program.rules@, 0).unwrap()),
{
    let setup = line_setup_stmts(span);
    let rules = lower_awk_rules_with_auto_print(&program.rules, auto_print)?;
    let ghost a = view_stmts(setup);
    let ghost b = view_stmts(rules);
    let mut body = setup;
    let mut rules = rules;
    body.append(&mut rules);
    assert(view_stmts(body) =~= a + b);
    let empty: Vec<PyStmt> = Vec::new();
    assert(view_stmts(empty) =~= Seq::<SpecPyStmt>::empty());
    Ok(PyStmt::For { target: py_name("__snail_raw", span), iter, body, orelse: empty, span })
}

fn is_stdin_expr(span: SourceSpan) -> (r: PyExpr)
    ensures
        r@ == is_stdin_spec(span),
{
    let mut ops: Vec<PyCompareOp> = Vec::new();
    ops.push(PyCompareOp::Eq);
    let mut comparators: Vec<PyExpr> = Vec::new();
    let dash = string_expr("-", span);
    comparators.push(dash);
    assert(view_exprs(comparators) =~= seq![dash@]);
    let r = PyExpr::Compare { left: Box::new(py_name("__snail_path", span)), ops, comparators, span };
    assert(r@->Compare_ops =~= seq![PyCompareOp::Eq]);
    r
}

fn open_file_stmt(line_loop: PyStmt, span: SourceSpan) -> (r: PyStmt)
    ensures
        forall|rules: Seq<AwkRule>, auto_print: bool|
            line_loop@ == line_loop_spec(rules, span, spec_name("__snail_file"@, span), auto_print)
                ==> #[trigger] open_file_spec(rules, span, auto_print) == r@,
{
    let open_call = call1(py_name("open", span), py_name("__snail_path", span), span);
    let item = PyWithItem { context: open_call, target: Some(py_name("__snail_file", span)), span };
    let mut items: Vec<PyWithItem> = Vec::new();
    items.push(item);
    let ghost item_model = SpecPyWithItem {
        context: open_call@,
        target: Some(spec_name("__snail_file"@, span)),
        span,
    };
    let ghost loop_model = line_loop@;
    let r = PyStmt::With { items, body: one_stmt(line_loop), span };
    assert(r@->With_items =~= seq![item_model]);
    assert(r@ == SpecPyStmt::With { items: seq![item_model], body: seq![loop_model], span });
    r
}

/// Builds the body of the loop over the input files.
fn lower_awk_file_loop_with_auto_print(
    program: &AwkProgram,
    span: SourceSpan,
    auto_print: bool,
) -> (r: Result<Vec<PyStmt>, LowerError>)
    requires
        reportable(rules_fault(program.rules@, 0)),
    ensures
        r is Ok <==> rules_fault(program.rules@, 0) is None,
        r matches Ok(out) ==> view_stmts(out) == file_loop_spec(program.rules@, span, auto_print),
        r matches Err(err) ==> err.message@ == fault_message(rules_fault(program.rules@, 0).unwrap()),
{
    let reset = assign_name("__snail_fnr", number_expr("0", span), span);
    let stdin = attr_expr(py_name("sys", span), "stdin", span);
    let use_stdin = assign_name("__snail_file", stdin, span);
    let stdin_loop = lower_awk_line_loop_with_auto_print(
        program,
        span,
        py_name("__snail_file", span),
        auto_print,
    )?;
    let file_loop = lower_awk_line_loop_with_auto_print(
        program,
        span,
        py_name("__snail_file", span),
        auto_print,
    )?;
    let with_stmt = open_file_stmt(file_loop, span);
    assert(with_stmt@ == open_file_spec(program.rules@, span, auto_print));
    let choice = PyStmt::If {
        test: is_stdin_expr(span),
        body: two_stmts(use_stdin, stdin_loop),
        orelse: one_stmt(with_stmt),
        span,
    };
    Ok(two_stmts(reset, choice))
}

fn files_expr(span: SourceSpan) -> (r: PyExpr)
    ensures
        r@ == files_spec(span),
{
    let argv = attr_expr(py_name("sys", span), "argv", span);
    let one = number_expr("1", span);
    let slice = PyExpr::Slice { start: Some(Box::new(one)), end: None, span };
    assert(slice@ == SpecPyExpr::Slice { start: Some(Box::new(spec_number("1"@, span))), end: None, span });
    let tail = PyExpr::Index { value: Box::new(argv), index: Box::new(slice), span };
    let mut elements: Vec<PyExpr> = Vec::new();
    let dash = string_expr("-", span);
    elements.push(dash);
    assert(view_exprs(elements) =~= seq![dash@]);
    let stdin_only = PyExpr::List { elements, span };
    assert(tail@ == SpecPyExpr::Index {
        value: Box::new(spec_attr(spec_name("sys"@, span), "argv"@, span)),
        index: Box::new(slice@),
        span,
    });
    assert(stdin_only@ == SpecPyExpr::List { elements: seq![spec_str("-"@, span)], span });
    PyExpr::Binary { left: Box::new(tail), op: PyBinaryOp::Or, right: Box::new(stdin_only), span }
}

/// Lowers the blocks, each with results printed, and appends them to `out`.
#[verifier::rlimit(40)]
fn lower_blocks_into(out: &mut Vec<PyStmt>, blocks: &Vec<Vec<Stmt>>, auto_print: bool) -> (r: Result<
    (),
    LowerError,
>)
    requires
        reportable(blocks_fault(blocks@, 0)),
    ensures
        r is Ok <==> blocks_fault(blocks@, 0) is None,
        r is Ok ==> view_stmts(*final(out)) == view_stmts(*old(out)) + blocks_spec(blocks@, auto_print),
        r matches Err(err) ==> err.message@ == fault_message(blocks_fault(blocks@, 0).unwrap()),
{
    let ghost start = view_stmts(*out);
    let mut i: usize = 0;
    while i < blocks.len()
        invariant
            i <= blocks.len(),
            blocks_fault(blocks@, 0) == blocks_fault(blocks@, i as int),
            reportable(blocks_fault(blocks@, 0)),
            view_stmts(*out) == start + blocks_spec(blocks@.take(i as int), auto_print),
        decreases blocks.len() - i,
    {
        let lowered = lower_block(&blocks[i])?;
        let wrapped = wrap_block_with_auto_print(lowered, auto_print);
        let ghost before = view_stmts(*out);
        let ghost added = view_stmts(wrapped);
        let mut wrapped = wrapped;
        out.append(&mut wrapped);
        assert(view_stmts(*out) =~= before + added);
        assert(blocks@.take(i + 1).drop_last() =~= blocks@.take(i as int));
        i += 1;
    }
    assert(blocks@.take(i as int) =~= blocks@);
    Ok(())
}

/// Lowers an awk program into a Python module; with `auto_print`, a begin,
/// end or rule block that ends in a bare expression prints its value.
pub fn lower_awk_program_with_auto_print(program: &AwkProgram, auto_print: bool) -> (r: Result<
    PyModule,
    LowerError,
>)
    requires
        reportable(awk_program_fault(*program)),
    ensures
        r is Ok <==> awk_program_fault(*program) is None,
        r matches Ok(m) ==> m@ == lower_awk_spec(*program, auto_print),
        r matches Err(err) ==> err.message@ == fault_message(awk_program_fault(*program).unwrap()),
{
    let span = program.span;
    let mut body: Vec<PyStmt> = Vec::new();
    body.push(import_stmt("sys", span));
    assert(view_stmts(body) =~= seq![spec_import("sys"@, span)]);
    lower_blocks_into(&mut body, &program.begin_blocks, auto_print)?;
    body.push(assign_name("__snail_nr", number_expr("0", span), span));
    let file_loop = lower_awk_file_loop_with_auto_print(program, span, auto_print)?;
    let empty: Vec<PyStmt> = Vec::new();
    assert(view_stmts(empty) =~= Seq::<SpecPyStmt>::empty());
    let files = PyStmt::For {
        target: py_name("__snail_path", span),
        iter: files_expr(span),
        body: file_loop,
        orelse: empty,
        span,
    };
    let ghost head = view_stmts(body);
    body.push(files);
    assert(view_stmts(body) =~= head.push(files@));
    lower_blocks_into(&mut body, &program.end_blocks, auto_print)?;
    let r = PyModule { body, span };
    assert(r@.body =~= lower_awk_spec(*program, auto_print).body);
    Ok(r)
}

/// Lowers an awk program into a Python module, without printing results.
pub fn lower_awk_program(program: &AwkProgram) -> (r: Result<PyModule, LowerError>)
    requires
        reportable(awk_program_fault(*program)),
    ensures
        r is Ok <==> awk_program_fault(*program) is None,
        r matches Ok(m) ==> m@ == lower_awk_spec(*program, false),
        r matches Err(err) ==> err.message@ == fault_message(awk_program_fault(*program).unwrap()),
{
    lower_awk_program_with_auto_print(program, false)
}


/// The name that a statement `target = name` copies into `target`, when it
/// is such a statement.
pub open spec fn copy_source(s: SpecPyStmt, target: Seq<char>) -> Option<Seq<char>> {
    match s {
        SpecPyStmt::Assign { targets, value, .. } => if targets.len() == 1 && (targets[0] matches SpecPyExpr::Name { id, .. } && id == target) {
            match value {
                SpecPyExpr::Name { id, .. } => Some(id),
                _ => None,
            }
        } else {
            None
        },
        _ => None,
    }
}

/// Whether a statement is `name = 0`.
pub open spec fn resets(s: SpecPyStmt, name: Seq<char>) -> bool {
    exists|span: SourceSpan| s == spec_assign(name, spec_number("0"@, span), span)
}

/// `$n` counts lines across all files and `$fn` within the current file.
/// Each line sets `$n` from a counter that the line setup advances by one,
/// that the module sets to zero once before the loop over the files, and
/// that the loop over the files never resets; it sets `$fn` from a counter
/// that the line setup also advances, and that the loop over the files
/// resets to zero first thing for each file. The two counters differ.
pub proof fn lemma_line_numbers_count_across_files(p: AwkProgram, auto_print: bool)
    ensures
        ({
            let span = p.span;
            let setup = line_setup_spec(span);
            let per_file = file_loop_spec(p.rules@, span, auto_print);
            let body = lower_awk_spec(p, auto_print).body;
            let k = blocks_spec(p.begin_blocks@, auto_print).len() as int + 1;
            &&& body[k + 1] is For
            &&& body[k + 1]->For_body == per_file
            &&& body[k + 1]->For_body[1]->If_body[1] == line_loop_spec(p.rules@, span, spec_name("__snail_file"@, span), auto_print)
            &&& line_loop_spec(p.rules@, span, spec_name("__snail_file"@, span), auto_print)->For_body.take(setup.len() as int) == setup
            &&& exists|i: int| 0 <= i < setup.len() && (#[trigger] copy_source(setup[i], SNAIL_AWK_NR_PYVAR@)) is Some
            &&& exists|i: int| 0 <= i < setup.len() && (#[trigger] copy_source(setup[i], SNAIL_AWK_FNR_PYVAR@)) is Some
            &&& forall|i: int, j: int|
                0 <= i < setup.len() && 0 <= j < setup.len()
                    && #[trigger] copy_source(setup[i], SNAIL_AWK_NR_PYVAR@) is Some
                    && #[trigger] copy_source(setup[j], SNAIL_AWK_FNR_PYVAR@) is Some
                    ==> {
                    let g = copy_source(setup[i], SNAIL_AWK_NR_PYVAR@).unwrap();
                    let f = copy_source(setup[j], SNAIL_AWK_FNR_PYVAR@).unwrap();
                    &&& g != f
                    &&& setup.contains(incr_spec(g, span))
                    &&& setup.contains(incr_spec(f, span))
                    &&& resets(body[k], g)
                    &&& !resets(per_file[0], g)
                    &&& !resets(per_file[1], g)
                    &&& resets(per_file[0], f)
                }
        }),
{
    let span = p.span;
    let setup = line_setup_spec(span);
    let per_file = file_loop_spec(p.rules@, span, auto_print);
    let k = blocks_spec(p.begin_blocks@, auto_print).len() as int + 1;
    lemma_awk_module_shape(p, auto_print);
    lemma_setup_copies(span);
    assert(copy_source(setup[4], SNAIL_AWK_NR_PYVAR@) is Some);
    assert(copy_source(setup[5], SNAIL_AWK_FNR_PYVAR@) is Some);
    lemma_resets_distinct(per_file[0], "__snail_fnr"@, "__snail_nr"@, span);
    assert(setup[0] == incr_spec("__snail_nr"@, span));
    assert(setup[1] == incr_spec("__snail_fnr"@, span));
}

/// Where the counters stand in the module of an awk program.
proof fn lemma_awk_module_shape(p: AwkProgram, auto_print: bool)
    ensures
        ({
            let span = p.span;
            let per_file = file_loop_spec(p.rules@, span, auto_print);
            let body = lower_awk_spec(p, auto_print).body;
            let k = blocks_spec(p.begin_blocks@, auto_print).len() as int + 1;
            &&& body[k] == spec_assign("__snail_nr"@, spec_number("0"@, span), span)
            &&& body[k + 1] is For
            &&& body[k + 1]->For_body == per_file
            &&& per_file[0] == spec_assign("__snail_fnr"@, spec_number("0"@, span), span)
            &&& per_file[1] is If
            &&& per_file[1]->If_body[1] == line_loop_spec(p.rules@, span, spec_name("__snail_file"@, span), auto_print)
            &&& line_loop_spec(p.rules@, span, spec_name("__snail_file"@, span), auto_print)->For_body.take(
                line_setup_spec(span).len() as int,
            ) == line_setup_spec(span)
            &&& resets(body[k], "__snail_nr"@)
            &&& resets(per_file[0], "__snail_fnr"@)
        }),
{
    let span = p.span;
    let per_file = file_loop_spec(p.rules@, span, auto_print);
    let body = lower_awk_spec(p, auto_print).body;
    let b = blocks_spec(p.begin_blocks@, auto_print);
    let k = b.len() as int + 1;
    let head = seq![spec_import("sys"@, span)] + b;
    let mid = seq![
        spec_assign("__snail_nr"@, spec_number("0"@, span), span),
        SpecPyStmt::For {
            target: spec_name("__snail_path"@, span),
            iter: files_spec(span),
            body: per_file,
            orelse: Seq::empty(),
            span,
        },
    ];
    assert(body == head + mid + blocks_spec(p.end_blocks@, auto_print));
    assert(body[k] == mid[0]);
    assert(body[k + 1] == mid[1]);
    let ll = line_loop_spec(p.rules@, span, spec_name("__snail_file"@, span), auto_print);
    assert(ll->For_body == line_setup_spec(span) + rules_spec(p.rules@, auto_print));
    assert(ll->For_body.take(line_setup_spec(span).len() as int) =~= line_setup_spec(span));
}

/// In the line setup, only the fifth statement sets `$n`, from the global
/// counter, and only the sixth sets `$fn`, from the per-file counter.
proof fn lemma_setup_copies(span: SourceSpan)
    ensures
        forall|i: int| 0 <= i < line_setup_spec(span).len() && (#[trigger] copy_source(line_setup_spec(span)[i], SNAIL_AWK_NR_PYVAR@)) is Some
            ==> i == 4,
        forall|i: int| 0 <= i < line_setup_spec(span).len() && (#[trigger] copy_source(line_setup_spec(span)[i], SNAIL_AWK_FNR_PYVAR@)) is Some
            ==> i == 5,
        copy_source(line_setup_spec(span)[4], SNAIL_AWK_NR_PYVAR@) == Some("__snail_nr"@),
        copy_source(line_setup_spec(span)[5], SNAIL_AWK_FNR_PYVAR@) == Some("__snail_fnr"@),
        "__snail_nr"@ != "__snail_fnr"@,
{
    reveal_strlit("__snail_nr");
    reveal_strlit("__snail_fnr");
    reveal_strlit("__snail_nr_user");
    reveal_strlit("__snail_fnr_user");
    reveal_strlit("__snail_path_user");
    reveal_strlit("__snail_line");
    reveal_strlit("__snail_fields");
    let setup = line_setup_spec(span);
    assert(setup.len() == 7);
    assert("__snail_nr"@.len() != "__snail_fnr"@.len());
    assert(SNAIL_AWK_NR_PYVAR@ == "__snail_nr_user"@);
    assert(SNAIL_AWK_FNR_PYVAR@ == "__snail_fnr_user"@);
    assert(SNAIL_AWK_PATH_PYVAR@ == "__snail_path_user"@);
    assert(SNAIL_AWK_NR_PYVAR@.len() != SNAIL_AWK_FNR_PYVAR@.len());
    assert(SNAIL_AWK_NR_PYVAR@.len() != SNAIL_AWK_PATH_PYVAR@.len());
    assert(SNAIL_AWK_FNR_PYVAR@.len() != SNAIL_AWK_PATH_PYVAR@.len());
    assert forall|i: int| 0 <= i < setup.len() && (#[trigger] copy_source(setup[i], SNAIL_AWK_NR_PYVAR@)) is Some
        implies i == 4 by {
        if i == 0 || i == 1 {
            assert(setup[i]->Assign_value is Binary);
        } else if i == 2 || i == 3 {
            assert(setup[i]->Assign_value is Call);
        } else if i != 4 {
            assert(setup[i]->Assign_targets[0] == spec_name(copy_target(i), span));
            assert(copy_target(i) != SNAIL_AWK_NR_PYVAR@);
        }
    }
    assert forall|i: int| 0 <= i < setup.len() && (#[trigger] copy_source(setup[i], SNAIL_AWK_FNR_PYVAR@)) is Some
        implies i == 5 by {
        if i == 0 || i == 1 {
            assert(setup[i]->Assign_value is Binary);
        } else if i == 2 || i == 3 {
            assert(setup[i]->Assign_value is Call);
        } else if i != 5 {
            assert(setup[i]->Assign_targets[0] == spec_name(copy_target(i), span));
            assert(copy_target(i) != SNAIL_AWK_FNR_PYVAR@);
        }
    }
}

/// The name that the `i`-th statement of the line setup assigns, for the
/// last three, which copy a counter or the path.
spec fn copy_target(i: int) -> Seq<char> {
    if i == 4 {
        SNAIL_AWK_NR_PYVAR@
    } else if i == 5 {
        SNAIL_AWK_FNR_PYVAR@
    } else {
        SNAIL_AWK_PATH_PYVAR@
    }
}

/// A statement that sets one name to zero does not set another.
proof fn lemma_resets_distinct(s: SpecPyStmt, a: Seq<char>, b: Seq<char>, span: SourceSpan)
    requires
        s == spec_assign(a, spec_number("0"@, span), span),
        a != b,
    ensures
        !resets(s, b),
{
    if resets(s, b) {
        let w = choose|w: SourceSpan| s == spec_assign(b, spec_number("0"@, w), w);
        assert(s->Assign_targets[0] == spec_name(b, w));
        assert(s->Assign_targets[0] == spec_name(a, span));
    }
}


/// A rule runs its action only where its pattern holds, and a rule without
/// an action prints the current line, the value that `$l` stands for. A rule
/// without a pattern runs its action on every line; with a pattern, its
/// statements end in an `if` whose body is the action and which has no
/// `else`; a pattern that is not a regex match is that `if`'s test, lowered.
pub proof fn lemma_rule_runs_its_action_under_its_pattern(rule: AwkRule, auto_print: bool)
    ensures
        rule.action is None ==> rule_action_spec(rule, auto_print) == seq![
            spec_expr_stmt(
                spec_call(
                    spec_name("print"@, rule.span),
                    seq![spec_pos(crate::lower::lower_name_spec(crate::lower::SNAIL_AWK_LINE@, None, rule.span), rule.span)],
                    rule.span,
                ),
                rule.span,
            ),
        ],
        rule.pattern is None ==> rule_spec(rule, auto_print) == rule_action_spec(rule, auto_print),
        rule.pattern matches Some(p) ==> {
            let out = rule_spec(rule, auto_print);
            &&& out.len() >= 1
            &&& out.last() is If
            &&& out.last()->If_body == rule_action_spec(rule, auto_print)
            &&& out.last()->If_orelse.len() == 0
            &&& rule_match_spec(p) is None ==> out.len() == 1 && out.last()->If_test == lower_expr_spec(p, None)
        },
{
}

} // verus!
