//! Lowering of the Snail syntax tree into the Python syntax tree.
//!
//! Every lowering function is specified by a spec function that gives the
//! model of the Python tree it builds, and by a spec function that gives the
//! first fault met on the way, in the order in which the lowering visits the
//! tree: a fault is what makes the lowering fail.
use vstd::prelude::*;
use crate::ast::{
    Argument, AssignTarget, AwkProgram, AwkRule, BinaryOp, CompareOp, ExceptHandler, Expr,
    FStringPart, ImportItem, Parameter, Program, RegexPattern, SourceSpan, Stmt, StringDelimiter,
    SubprocessKind, SubprocessPart, UnaryOp, WithItem, expr_span_of,
};
use crate::pyast::{
    PyArgument, PyBinaryOp, PyCompareOp, PyExceptHandler, PyExpr, PyFStringPart, PyImportName,
    PyModule, PyParameter, PyStmt, PyUnaryOp, PyWithItem, SpecPyArgument, SpecPyExceptHandler,
    SpecPyExpr, SpecPyFStringPart, SpecPyImportName, SpecPyModule, SpecPyParameter, SpecPyStmt,
    SpecPyWithItem, strings_view, view_exprs, view_stmts,
};
use crate::constants::{
    SNAIL_MAP_FD, SNAIL_MAP_FD_PYVAR, SNAIL_MAP_SRC, SNAIL_MAP_SRC_PYVAR, SNAIL_MAP_TEXT,
    SNAIL_MAP_TEXT_PYVAR,
};
use crate::fill::{fill_arg, fill_args, fill_arg_vec};
use crate::placeholder::{args_info, args_count};
use crate::text::{
    chars_of, i64_text, int_text, nat_text, owned, parse_i32, parse_i32_spec, push_chars, push_str,
    str_eq, string_from_chars, u64_text,
};

verus! {

pub const SNAIL_TRY_HELPER: &'static str = "__snail_compact_try";
pub const SNAIL_EXCEPTION_VAR: &'static str = "__snail_compact_exc";
pub const SNAIL_SUBPROCESS_CAPTURE_CLASS: &'static str = "__SnailSubprocessCapture";
pub const SNAIL_SUBPROCESS_STATUS_CLASS: &'static str = "__SnailSubprocessStatus";
pub const SNAIL_REGEX_SEARCH: &'static str = "__snail_regex_search";
pub const SNAIL_REGEX_COMPILE: &'static str = "__snail_regex_compile";
pub const SNAIL_STRUCTURED_ACCESSOR_CLASS: &'static str = "__SnailStructuredAccessor";
pub const SNAIL_JSON_OBJECT_CLASS: &'static str = "__SnailJsonObject";
pub const SNAIL_JSON_FUNCTION: &'static str = "js";
pub const SNAIL_REGEX_CLASS: &'static str = "__SnailRegex";
pub const SNAIL_AWK_LINE: &'static str = "$l";
pub const SNAIL_AWK_FIELDS: &'static str = "$f";
pub const SNAIL_AWK_NR: &'static str = "$n";
pub const SNAIL_AWK_FNR: &'static str = "$fn";
pub const SNAIL_AWK_PATH: &'static str = "$p";
pub const SNAIL_AWK_MATCH: &'static str = "$m";
pub const SNAIL_AWK_LINE_PYVAR: &'static str = "__snail_line";
pub const SNAIL_AWK_FIELDS_PYVAR: &'static str = "__snail_fields";
pub const SNAIL_AWK_NR_PYVAR: &'static str = "__snail_nr_user";
pub const SNAIL_AWK_FNR_PYVAR: &'static str = "__snail_fnr_user";
pub const SNAIL_AWK_PATH_PYVAR: &'static str = "__snail_path_user";
pub const SNAIL_AWK_MATCH_PYVAR: &'static str = "__snail_match";
pub const SNAIL_EXCEPTION_NAME: &'static str = "$e";
/// The name that marks, among the arguments of a piped call, where the
/// piped value goes.
pub const PLACEHOLDER_NAME: &'static str = "_";
pub const PLACEHOLDER_MESSAGE: &'static str = "only one `_` placeholder is allowed in a piped call; the first is at ";
pub const DOLLAR_E_MESSAGE: &'static str = "`$e` is only available in compact exception fallbacks";
pub const FIELD_INDEX_MESSAGE: &'static str = "Invalid field index: $";

/// The error that lowering reports.
#[derive(Debug, Clone, PartialEq, Eq)]
pub struct LowerError {
    pub message: String,
}

impl LowerError {
    pub fn new(message: &str) -> (r: Self)
        ensures
            r.message@ == message@,
    {
        LowerError { message: owned(message) }
    }
}

/// What makes lowering stop. `IndexOverflow` is a field index equal to the
/// smallest `i32`, whose 0-based form does not exist: callers rule it out.
pub enum LowerFault {
    DollarE,
    BadFieldIndex(Seq<char>),
    IndexOverflow,
    MultiplePlaceholders(SourceSpan),
}

pub open spec fn fault_message(f: LowerFault) -> Seq<char> {
    match f {
        LowerFault::DollarE => DOLLAR_E_MESSAGE@,
        LowerFault::BadFieldIndex(index) => FIELD_INDEX_MESSAGE@ + index,
        LowerFault::IndexOverflow => Seq::empty(),
        LowerFault::MultiplePlaceholders(span) => PLACEHOLDER_MESSAGE@ + nat_text(
            span.start.line as nat,
        ) + ":"@ + nat_text(span.start.column as nat),
    }
}

/// The first of two faults, in visiting order.
pub open spec fn first_fault(a: Option<LowerFault>, b: Option<LowerFault>) -> Option<LowerFault> {
    if a is Some {
        a
    } else {
        b
    }
}

pub open spec fn opt_str_view(o: Option<&str>) -> Option<Seq<char>> {
    match o {
        Some(s) => Some(s@),
        None => None,
    }
}

/// Whether a fault, if any, is one that lowering reports as an error.
pub open spec fn reportable(f: Option<LowerFault>) -> bool {
    !(f matches Some(LowerFault::IndexOverflow))
}

/// The Python names that the awk and map variables stand for.
pub open spec fn awk_injected_spec(name: Seq<char>) -> Option<Seq<char>> {
    if name == SNAIL_AWK_LINE@ {
        Some(SNAIL_AWK_LINE_PYVAR@)
    } else if name == SNAIL_AWK_FIELDS@ {
        Some(SNAIL_AWK_FIELDS_PYVAR@)
    } else if name == SNAIL_AWK_NR@ {
        Some(SNAIL_AWK_NR_PYVAR@)
    } else if name == SNAIL_AWK_FNR@ {
        Some(SNAIL_AWK_FNR_PYVAR@)
    } else if name == SNAIL_AWK_PATH@ {
        Some(SNAIL_AWK_PATH_PYVAR@)
    } else if name == SNAIL_AWK_MATCH@ {
        Some(SNAIL_AWK_MATCH_PYVAR@)
    } else if name == SNAIL_MAP_SRC@ {
        Some(SNAIL_MAP_SRC_PYVAR@)
    } else if name == SNAIL_MAP_FD@ {
        Some(SNAIL_MAP_FD_PYVAR@)
    } else if name == SNAIL_MAP_TEXT@ {
        Some(SNAIL_MAP_TEXT_PYVAR@)
    } else {
        None
    }
}

/// Maps an awk variable (`$l`, `$f`, `$n`, `$fn`, `$p`, `$m`) or a map
/// variable (`$src`, `$fd`, `$text`) to the Python name that holds it.
pub fn injected_py_name(name: &str) -> (r: Option<&'static str>)
    ensures
        match r {
            Some(py) => awk_injected_spec(name@) == Some(py@),
            None => awk_injected_spec(name@) is None,
        },
{
    if str_eq(name, SNAIL_AWK_LINE) {
        Some(SNAIL_AWK_LINE_PYVAR)
    } else if str_eq(name, SNAIL_AWK_FIELDS) {
        Some(SNAIL_AWK_FIELDS_PYVAR)
    } else if str_eq(name, SNAIL_AWK_NR) {
        Some(SNAIL_AWK_NR_PYVAR)
    } else if str_eq(name, SNAIL_AWK_FNR) {
        Some(SNAIL_AWK_FNR_PYVAR)
    } else if str_eq(name, SNAIL_AWK_PATH) {
        Some(SNAIL_AWK_PATH_PYVAR)
    } else if str_eq(name, SNAIL_AWK_MATCH) {
        Some(SNAIL_AWK_MATCH_PYVAR)
    } else if str_eq(name, SNAIL_MAP_SRC) {
        Some(SNAIL_MAP_SRC_PYVAR)
    } else if str_eq(name, SNAIL_MAP_FD) {
        Some(SNAIL_MAP_FD_PYVAR)
    } else if str_eq(name, SNAIL_MAP_TEXT) {
        Some(SNAIL_MAP_TEXT_PYVAR)
    } else {
        None
    }
}

pub open spec fn lower_unary_spec(op: UnaryOp) -> PyUnaryOp {
    match op {
        UnaryOp::Plus => PyUnaryOp::Plus,
        UnaryOp::Minus => PyUnaryOp::Minus,
        UnaryOp::Not => PyUnaryOp::Not,
    }
}

/// The Python operator for a Snail operator; the pipeline has none.
pub open spec fn lower_binary_spec(op: BinaryOp) -> PyBinaryOp {
    match op {
        BinaryOp::Or => PyBinaryOp::Or,
        BinaryOp::And => PyBinaryOp::And,
        BinaryOp::Add => PyBinaryOp::Add,
        BinaryOp::Sub => PyBinaryOp::Sub,
        BinaryOp::Mul => PyBinaryOp::Mul,
        BinaryOp::Div => PyBinaryOp::Div,
        BinaryOp::FloorDiv => PyBinaryOp::FloorDiv,
        BinaryOp::Mod => PyBinaryOp::Mod,
        BinaryOp::Pow => PyBinaryOp::Pow,
        BinaryOp::Pipeline => PyBinaryOp::Or,
    }
}

pub open spec fn lower_compare_spec(op: CompareOp) -> PyCompareOp {
    match op {
        CompareOp::Eq => PyCompareOp::Eq,
        CompareOp::NotEq => PyCompareOp::NotEq,
        CompareOp::Lt => PyCompareOp::Lt,
        CompareOp::LtEq => PyCompareOp::LtEq,
        CompareOp::Gt => PyCompareOp::Gt,
        CompareOp::GtEq => PyCompareOp::GtEq,
        CompareOp::In => PyCompareOp::In,
        CompareOp::Is => PyCompareOp::Is,
    }
}

pub fn lower_unary_op(op: UnaryOp) -> (r: PyUnaryOp)
    ensures
        r == lower_unary_spec(op),
{
    match op {
        UnaryOp::Plus => PyUnaryOp::Plus,
        UnaryOp::Minus => PyUnaryOp::Minus,
        UnaryOp::Not => PyUnaryOp::Not,
    }
}

/// The Python operator for a Snail binary operator other than the pipeline,
/// which lowering rewrites into a call.
pub fn lower_binary_op(op: BinaryOp) -> (r: PyBinaryOp)
    requires
        op != BinaryOp::Pipeline,
    ensures
        r == lower_binary_spec(op),
{
    match op {
        BinaryOp::Or => PyBinaryOp::Or,
        BinaryOp::And => PyBinaryOp::And,
        BinaryOp::Add => PyBinaryOp::Add,
        BinaryOp::Sub => PyBinaryOp::Sub,
        BinaryOp::Mul => PyBinaryOp::Mul,
        BinaryOp::Div => PyBinaryOp::Div,
        BinaryOp::FloorDiv => PyBinaryOp::FloorDiv,
        BinaryOp::Mod => PyBinaryOp::Mod,
        BinaryOp::Pow => PyBinaryOp::Pow,
        BinaryOp::Pipeline => PyBinaryOp::Or,
    }
}

pub fn lower_compare_op(op: CompareOp) -> (r: PyCompareOp)
    ensures
        r == lower_compare_spec(op),
{
    match op {
        CompareOp::Eq => PyCompareOp::Eq,
        CompareOp::NotEq => PyCompareOp::NotEq,
        CompareOp::Lt => PyCompareOp::Lt,
        CompareOp::LtEq => PyCompareOp::LtEq,
        CompareOp::Gt => PyCompareOp::Gt,
        CompareOp::GtEq => PyCompareOp::GtEq,
        CompareOp::In => PyCompareOp::In,
        CompareOp::Is => PyCompareOp::Is,
    }
}

// ---------------------------------------------------------------------------
// Faults of expressions.

pub open spec fn field_index_fault(index: Seq<char>) -> Option<LowerFault> {
    if index == "0"@ {
        None
    } else {
        match parse_i32_spec(index) {
            None => Some(LowerFault::BadFieldIndex(index)),
            Some(v) => if v == i32::MIN {
                Some(LowerFault::IndexOverflow)
            } else {
                None
            },
        }
    }
}

pub open spec fn expr_fault(e: Expr, exc: Option<Seq<char>>) -> Option<LowerFault>
    decreases e, 0int,
{
    match e {
        Expr::Name { name, .. } => if name@ == SNAIL_EXCEPTION_NAME@ && exc is None {
            Some(LowerFault::DollarE)
        } else {
            None
        },
        Expr::FieldIndex { index, .. } => field_index_fault(index@),
        Expr::FString { parts, .. } => fparts_fault(parts@, 0, exc),
        Expr::Unary { expr, .. } => expr_fault(*expr, exc),
        Expr::Binary { left, op, right, .. } => if op == BinaryOp::Pipeline && (match *right {
            Expr::Call { args, .. } => args_info(args@, args@.len() as int).0 >= 2,
            _ => false,
        }) {
            match *right {
                Expr::Call { args, span, .. } => Some(
                    LowerFault::MultiplePlaceholders(
                        match args_info(args@, args@.len() as int).1 {
                            Some(first) => first,
                            None => span,
                        },
                    ),
                ),
                _ => None,
            }
        } else {
            first_fault(
                expr_fault(*left, exc),
                if op == BinaryOp::Pipeline && (*right is Subprocess) {
                    match *right {
                        Expr::Subprocess { parts, .. } => subparts_fault(parts@, 0, exc),
                        _ => None,
                    }
                } else {
                    expr_fault(*right, exc)
                },
            )
        },
        Expr::Compare { left, comparators, .. } => first_fault(
            expr_fault(*left, exc),
            exprs_fault(comparators@, 0, exc),
        ),
        Expr::IfExpr { test, body, orelse, .. } => first_fault(
            expr_fault(*test, exc),
            first_fault(expr_fault(*body, exc), expr_fault(*orelse, exc)),
        ),
        Expr::TryExpr { expr, fallback, .. } => first_fault(
            expr_fault(*expr, exc),
            match fallback {
                Some(f) => expr_fault(*f, Some(SNAIL_EXCEPTION_VAR@)),
                None => None,
            },
        ),
        Expr::Compound { expressions, .. } => exprs_fault(expressions@, 0, exc),
        Expr::Regex { pattern, .. } => pattern_fault(pattern, exc),
        Expr::RegexMatch { value, pattern, .. } => first_fault(
            expr_fault(*value, exc),
            pattern_fault(pattern, exc),
        ),
        Expr::Subprocess { parts, .. } => subparts_fault(parts@, 0, exc),
        Expr::Call { func, args, .. } => first_fault(
            expr_fault(*func, exc),
            args_fault(args@, 0, exc),
        ),
        Expr::Attribute { value, .. } => expr_fault(*value, exc),
        Expr::Index { value, index, .. } => first_fault(
            expr_fault(*value, exc),
            expr_fault(*index, exc),
        ),
        Expr::Paren { expr, .. } => expr_fault(*expr, exc),
        Expr::List { elements, .. } => exprs_fault(elements@, 0, exc),
        Expr::Tuple { elements, .. } => exprs_fault(elements@, 0, exc),
        Expr::SetLiteral { elements, .. } => exprs_fault(elements@, 0, exc),
        Expr::Dict { entries, .. } => entries_fault(entries@, 0, exc),
        Expr::ListComp { element, iter, ifs, .. } => first_fault(
            exprs_fault(ifs@, 0, exc),
            first_fault(expr_fault(*element, exc), expr_fault(*iter, exc)),
        ),
        Expr::DictComp { key, value, iter, ifs, .. } => first_fault(
            exprs_fault(ifs@, 0, exc),
            first_fault(
                expr_fault(*key, exc),
                first_fault(expr_fault(*value, exc), expr_fault(*iter, exc)),
            ),
        ),
        Expr::Slice { start, end, .. } => first_fault(
            match start {
                Some(s) => expr_fault(*s, exc),
                None => None,
            },
            match end {
                Some(x) => expr_fault(*x, exc),
                None => None,
            },
        ),
        _ => None,
    }
}

pub open spec fn exprs_fault(s: Seq<Expr>, i: int, exc: Option<Seq<char>>) -> Option<LowerFault>
    decreases s, s.len() - i,
{
    if 0 <= i < s.len() {
        first_fault(expr_fault(s[i], exc), exprs_fault(s, i + 1, exc))
    } else {
        None
    }
}

pub open spec fn entries_fault(s: Seq<(Expr, Expr)>, i: int, exc: Option<Seq<char>>) -> Option<
    LowerFault,
>
    decreases s, s.len() - i,
{
    if 0 <= i < s.len() {
        first_fault(
            first_fault(expr_fault(s[i].0, exc), expr_fault(s[i].1, exc)),
            entries_fault(s, i + 1, exc),
        )
    } else {
        None
    }
}

pub open spec fn fpart_fault(p: FStringPart, exc: Option<Seq<char>>) -> Option<LowerFault>
    decreases p, 0int,
{
    match p {
        FStringPart::Text(_) => None,
        FStringPart::Expr(e) => expr_fault(*e, exc),
    }
}

pub open spec fn fparts_fault(s: Seq<FStringPart>, i: int, exc: Option<Seq<char>>) -> Option<
    LowerFault,
>
    decreases s, s.len() - i,
{
    if 0 <= i < s.len() {
        first_fault(fpart_fault(s[i], exc), fparts_fault(s, i + 1, exc))
    } else {
        None
    }
}

pub open spec fn subpart_fault(p: SubprocessPart, exc: Option<Seq<char>>) -> Option<LowerFault>
    decreases p, 0int,
{
    match p {
        SubprocessPart::Text(_) => None,
        SubprocessPart::Expr(e) => expr_fault(*e, exc),
    }
}

pub open spec fn subparts_fault(s: Seq<SubprocessPart>, i: int, exc: Option<Seq<char>>) -> Option<
    LowerFault,
>
    decreases s, s.len() - i,
{
    if 0 <= i < s.len() {
        first_fault(subpart_fault(s[i], exc), subparts_fault(s, i + 1, exc))
    } else {
        None
    }
}

pub open spec fn pattern_fault(p: RegexPattern, exc: Option<Seq<char>>) -> Option<LowerFault>
    decreases p, 0int,
{
    match p {
        RegexPattern::Literal(_) => None,
        RegexPattern::Interpolated(parts) => fparts_fault(parts@, 0, exc),
    }
}

pub open spec fn arg_fault(a: Argument, exc: Option<Seq<char>>) -> Option<LowerFault>
    decreases a, 0int,
{
    match a {
        Argument::Positional { value, .. } => expr_fault(value, exc),
        Argument::Keyword { value, .. } => expr_fault(value, exc),
        Argument::Star { value, .. } => expr_fault(value, exc),
        Argument::KwStar { value, .. } => expr_fault(value, exc),
    }
}

pub open spec fn args_fault(s: Seq<Argument>, i: int, exc: Option<Seq<char>>) -> Option<
    LowerFault,
>
    decreases s, s.len() - i,
{
    if 0 <= i < s.len() {
        first_fault(arg_fault(s[i], exc), args_fault(s, i + 1, exc))
    } else {
        None
    }
}

// ---------------------------------------------------------------------------
// The model of expression lowering.

pub open spec fn spec_name(id: Seq<char>, span: SourceSpan) -> SpecPyExpr {
    SpecPyExpr::Name { id, span }
}

pub open spec fn spec_pos(value: SpecPyExpr, span: SourceSpan) -> SpecPyArgument {
    SpecPyArgument::Positional { value, span }
}

pub open spec fn spec_call(func: SpecPyExpr, args: Seq<SpecPyArgument>, span: SourceSpan) -> SpecPyExpr {
    SpecPyExpr::Call { func: Box::new(func), args, span }
}

pub open spec fn subprocess_class(kind: SubprocessKind) -> Seq<char> {
    match kind {
        SubprocessKind::Capture => SNAIL_SUBPROCESS_CAPTURE_CLASS@,
        SubprocessKind::Status => SNAIL_SUBPROCESS_STATUS_CLASS@,
    }
}

/// `__SnailSubprocessCapture(f"cmd")` (or the status class) for a command.
pub open spec fn subprocess_object_spec(
    kind: SubprocessKind,
    parts: Seq<SpecPyFStringPart>,
    span: SourceSpan,
) -> SpecPyExpr {
    spec_call(
        spec_name(subprocess_class(kind), span),
        seq![spec_pos(SpecPyExpr::FString { parts, span }, span)],
        span,
    )
}

/// The expression that an argument passes.
pub open spec fn arg_value(a: Argument) -> Expr {
    match a {
        Argument::Positional { value, .. } => value,
        Argument::Keyword { value, .. } => value,
        Argument::Star { value, .. } => value,
        Argument::KwStar { value, .. } => value,
    }
}

/// `target(arg)`: a pipeline calls its right side with the piped value.
pub open spec fn pipeline_call_spec(target: SpecPyExpr, arg: SpecPyExpr, span: SourceSpan) -> SpecPyExpr {
    spec_call(target, seq![spec_pos(arg, span)], span)
}

pub open spec fn lower_name_spec(name: Seq<char>, exc: Option<Seq<char>>, span: SourceSpan) -> SpecPyExpr {
    if name == SNAIL_EXCEPTION_NAME@ && exc is Some {
        spec_name(exc.unwrap(), span)
    } else {
        match awk_injected_spec(name) {
            Some(py) => spec_name(py, span),
            None => spec_name(name, span),
        }
    }
}

/// `$0` is the whole line; `$n` for another `n` is field `n - 1` of the split line.
pub open spec fn lower_field_index_spec(index: Seq<char>, span: SourceSpan) -> SpecPyExpr {
    if index == "0"@ {
        spec_name(SNAIL_AWK_LINE_PYVAR@, span)
    } else {
        SpecPyExpr::Index {
            value: Box::new(spec_name(SNAIL_AWK_FIELDS_PYVAR@, span)),
            index: Box::new(
                SpecPyExpr::Number { value: int_text(parse_i32_spec(index).unwrap() - 1), span },
            ),
            span,
        }
    }
}

pub open spec fn lower_expr_spec(e: Expr, exc: Option<Seq<char>>) -> SpecPyExpr
    decreases e, 0int,
{
    match e {
        Expr::Name { name, span } => lower_name_spec(name@, exc, span),
        Expr::FieldIndex { index, span } => lower_field_index_spec(index@, span),
        Expr::Number { value, span } => SpecPyExpr::Number { value: value@, span },
        Expr::String { value, raw, delimiter, span } => SpecPyExpr::String {
            value: value@,
            raw,
            delimiter,
            span,
        },
        Expr::FString { parts, span } => SpecPyExpr::FString {
            parts: lower_fparts_spec(parts, exc),
            span,
        },
        Expr::Bool { value, span } => SpecPyExpr::Bool { value, span },
        Expr::NoneLiteral { span } => SpecPyExpr::NoneLiteral { span },
        Expr::Unary { op, expr, span } => SpecPyExpr::Unary {
            op: lower_unary_spec(op),
            operand: Box::new(lower_expr_spec(*expr, exc)),
            span,
        },
        Expr::Binary { left, op, right, span } => if op == BinaryOp::Pipeline {
            match *right {
                Expr::Subprocess { kind, parts, span: s } => pipeline_call_spec(
                    subprocess_object_spec(kind, lower_subparts_spec(parts, exc), s),
                    lower_expr_spec(*left, exc),
                    span,
                ),
                Expr::Call { func, args, span: c } => if args_info(args@, args@.len() as int).0 == 1 {
                    spec_call(
                        lower_expr_spec(*func, exc),
                        fill_args(lower_args_spec(args, exc), lower_expr_spec(*left, exc), true),
                        span,
                    )
                } else {
                    pipeline_call_spec(
                        SpecPyExpr::Call {
                            func: Box::new(lower_expr_spec(*func, exc)),
                            args: lower_args_spec(args, exc),
                            span: c,
                        },
                        lower_expr_spec(*left, exc),
                        span,
                    )
                },
                _ => pipeline_call_spec(lower_expr_spec(*right, exc), lower_expr_spec(*left, exc), span),
            }
        } else {
            SpecPyExpr::Binary {
                left: Box::new(lower_expr_spec(*left, exc)),
                op: lower_binary_spec(op),
                right: Box::new(lower_expr_spec(*right, exc)),
                span,
            }
        },
        Expr::Compare { left, ops, comparators, span } => SpecPyExpr::Compare {
            left: Box::new(lower_expr_spec(*left, exc)),
            ops: Seq::new(ops.len() as nat, |i: int| lower_compare_spec(ops[i])),
            comparators: lower_exprs_spec(comparators, exc),
            span,
        },
        Expr::IfExpr { test, body, orelse, span } => SpecPyExpr::IfExpr {
            test: Box::new(lower_expr_spec(*test, exc)),
            body: Box::new(lower_expr_spec(*body, exc)),
            orelse: Box::new(lower_expr_spec(*orelse, exc)),
            span,
        },
        Expr::TryExpr { expr, fallback, span } => spec_call(
            spec_name(SNAIL_TRY_HELPER@, span),
            seq![
                spec_pos(
                    SpecPyExpr::Lambda {
                        params: Seq::empty(),
                        body: Box::new(lower_expr_spec(*expr, exc)),
                        span,
                    },
                    span,
                ),
            ] + match fallback {
                Some(f) => seq![
                    spec_pos(
                        SpecPyExpr::Lambda {
                            params: seq![SNAIL_EXCEPTION_VAR@],
                            body: Box::new(lower_expr_spec(*f, Some(SNAIL_EXCEPTION_VAR@))),
                            span,
                        },
                        span,
                    ),
                ],
                None => Seq::empty(),
            },
            span,
        ),
        Expr::Compound { expressions, span } => SpecPyExpr::Index {
            value: Box::new(
                SpecPyExpr::Tuple { elements: lower_exprs_spec(expressions, exc), span },
            ),
            index: Box::new(
                SpecPyExpr::Unary {
                    op: PyUnaryOp::Minus,
                    operand: Box::new(SpecPyExpr::Number { value: "1"@, span }),
                    span,
                },
            ),
            span,
        },
        Expr::Regex { pattern, span } => spec_call(
            spec_name(SNAIL_REGEX_COMPILE@, span),
            seq![spec_pos(lower_pattern_spec(pattern, span, exc), span)],
            span,
        ),
        Expr::RegexMatch { value, pattern, span } => spec_call(
            spec_name(SNAIL_REGEX_SEARCH@, span),
            seq![
                spec_pos(lower_expr_spec(*value, exc), span),
                spec_pos(lower_pattern_spec(pattern, span, exc), span),
            ],
            span,
        ),
        Expr::Subprocess { kind, parts, span } => spec_call(
            subprocess_object_spec(kind, lower_subparts_spec(parts, exc), span),
            Seq::empty(),
            span,
        ),
        Expr::StructuredAccessor { query, span } => spec_call(
            spec_name(SNAIL_STRUCTURED_ACCESSOR_CLASS@, span),
            seq![
                spec_pos(
                    SpecPyExpr::String {
                        value: query@,
                        raw: false,
                        delimiter: StringDelimiter::Double,
                        span,
                    },
                    span,
                ),
            ],
            span,
        ),
        Expr::Call { func, args, span } => SpecPyExpr::Call {
            func: Box::new(lower_expr_spec(*func, exc)),
            args: lower_args_spec(args, exc),
            span,
        },
        Expr::Attribute { value, attr, span } => SpecPyExpr::Attribute {
            value: Box::new(lower_expr_spec(*value, exc)),
            attr: attr@,
            span,
        },
        Expr::Index { value, index, span } => SpecPyExpr::Index {
            value: Box::new(lower_expr_spec(*value, exc)),
            index: Box::new(lower_expr_spec(*index, exc)),
            span,
        },
        Expr::Paren { expr, span } => SpecPyExpr::Paren {
            expr: Box::new(lower_expr_spec(*expr, exc)),
            span,
        },
        Expr::List { elements, span } => SpecPyExpr::List {
            elements: lower_exprs_spec(elements, exc),
            span,
        },
        Expr::Tuple { elements, span } => SpecPyExpr::Tuple {
            elements: lower_exprs_spec(elements, exc),
            span,
        },
        Expr::SetLiteral { elements, span } => SpecPyExpr::SetLiteral {
            elements: lower_exprs_spec(elements, exc),
            span,
        },
        Expr::Dict { entries, span } => SpecPyExpr::Dict {
            entries: lower_entries_spec(entries, exc),
            span,
        },
        Expr::ListComp { element, target, iter, ifs, span } => SpecPyExpr::ListComp {
            element: Box::new(lower_expr_spec(*element, exc)),
            target: target@,
            iter: Box::new(lower_expr_spec(*iter, exc)),
            ifs: lower_exprs_spec(ifs, exc),
            span,
        },
        Expr::DictComp { key, value, target, iter, ifs, span } => SpecPyExpr::DictComp {
            key: Box::new(lower_expr_spec(*key, exc)),
            value: Box::new(lower_expr_spec(*value, exc)),
            target: target@,
            iter: Box::new(lower_expr_spec(*iter, exc)),
            ifs: lower_exprs_spec(ifs, exc),
            span,
        },
        Expr::Slice { start, end, span } => SpecPyExpr::Slice {
            start: match start {
                Some(b) => Some(Box::new(lower_expr_spec(*b, exc))),
                None => None,
            },
            end: match end {
                Some(b) => Some(Box::new(lower_expr_spec(*b, exc))),
                None => None,
            },
            span,
        },
    }
}

pub open spec fn dummy_span() -> SourceSpan {
    SourceSpan {
        start: crate::ast::SourcePos { offset: 0, line: 0, column: 0 },
        end: crate::ast::SourcePos { offset: 0, line: 0, column: 0 },
    }
}

pub open spec fn lower_exprs_spec(v: Vec<Expr>, exc: Option<Seq<char>>) -> Seq<SpecPyExpr>
    decreases v, 1int,
{
    Seq::new(
        v.len() as nat,
        |i: int|
            if 0 <= i < v.len() {
                lower_expr_spec(v[i], exc)
            } else {
                SpecPyExpr::NoneLiteral { span: dummy_span() }
            },
    )
}

pub open spec fn lower_entries_spec(v: Vec<(Expr, Expr)>, exc: Option<Seq<char>>) -> Seq<
    (SpecPyExpr, SpecPyExpr),
>
    decreases v, 1int,
{
    Seq::new(
        v.len() as nat,
        |i: int|
            if 0 <= i < v.len() {
                (lower_expr_spec(v[i].0, exc), lower_expr_spec(v[i].1, exc))
            } else {
                (SpecPyExpr::NoneLiteral { span: dummy_span() }, SpecPyExpr::NoneLiteral { span: dummy_span() })
            },
    )
}

pub open spec fn lower_fpart_spec(p: FStringPart, exc: Option<Seq<char>>) -> SpecPyFStringPart
    decreases p, 0int,
{
    match p {
        FStringPart::Text(t) => SpecPyFStringPart::Text(t@),
        FStringPart::Expr(e) => SpecPyFStringPart::Expr(lower_expr_spec(*e, exc)),
    }
}

pub open spec fn lower_fparts_spec(v: Vec<FStringPart>, exc: Option<Seq<char>>) -> Seq<SpecPyFStringPart>
    decreases v, 1int,
{
    Seq::new(
        v.len() as nat,
        |i: int|
            if 0 <= i < v.len() {
                lower_fpart_spec(v[i], exc)
            } else {
                SpecPyFStringPart::Text(Seq::empty())
            },
    )
}

pub open spec fn lower_subpart_spec(p: SubprocessPart, exc: Option<Seq<char>>) -> SpecPyFStringPart
    decreases p, 0int,
{
    match p {
        SubprocessPart::Text(t) => SpecPyFStringPart::Text(t@),
        SubprocessPart::Expr(e) => SpecPyFStringPart::Expr(lower_expr_spec(*e, exc)),
    }
}

pub open spec fn lower_subparts_spec(v: Vec<SubprocessPart>, exc: Option<Seq<char>>) -> Seq<
    SpecPyFStringPart,
>
    decreases v, 1int,
{
    Seq::new(
        v.len() as nat,
        |i: int|
            if 0 <= i < v.len() {
                lower_subpart_spec(v[i], exc)
            } else {
                SpecPyFStringPart::Text(Seq::empty())
            },
    )
}

/// A literal regex becomes a raw string; an interpolated one an f-string.
pub open spec fn lower_pattern_spec(p: RegexPattern, span: SourceSpan, exc: Option<Seq<char>>) -> SpecPyExpr
    decreases p, 0int,
{
    match p {
        RegexPattern::Literal(text) => SpecPyExpr::String {
            value: text@,
            raw: true,
            delimiter: StringDelimiter::Double,
            span,
        },
        RegexPattern::Interpolated(parts) => SpecPyExpr::FString {
            parts: lower_fparts_spec(parts, exc),
            span,
        },
    }
}

pub open spec fn lower_arg_spec(a: Argument, exc: Option<Seq<char>>) -> SpecPyArgument
    decreases a, 0int,
{
    match a {
        Argument::Positional { value, span } => SpecPyArgument::Positional {
            value: lower_expr_spec(value, exc),
            span,
        },
        Argument::Keyword { name, value, span } => SpecPyArgument::Keyword {
            name: name@,
            value: lower_expr_spec(value, exc),
            span,
        },
        Argument::Star { value, span } => SpecPyArgument::Star {
            value: lower_expr_spec(value, exc),
            span,
        },
        Argument::KwStar { value, span } => SpecPyArgument::KwStar {
            value: lower_expr_spec(value, exc),
            span,
        },
    }
}

pub open spec fn lower_args_spec(v: Vec<Argument>, exc: Option<Seq<char>>) -> Seq<SpecPyArgument>
    decreases v, 1int,
{
    Seq::new(
        v.len() as nat,
        |i: int|
            if 0 <= i < v.len() {
                lower_arg_spec(v[i], exc)
            } else {
                SpecPyArgument::Star { value: SpecPyExpr::NoneLiteral { span: dummy_span() }, span: dummy_span() }
            },
    )
}

// ---------------------------------------------------------------------------
// Expression lowering.

pub(crate) fn py_name(id: &str, span: SourceSpan) -> (r: PyExpr)
    ensures
        r@ == spec_name(id@, span),
{
    PyExpr::Name { id: owned(id), span }
}

pub(crate) fn pos_arg(value: PyExpr, span: SourceSpan) -> (r: PyArgument)
    ensures
        r@ == spec_pos(value@, span),
{
    PyArgument::Positional { value, span }
}

pub(crate) fn call1(func: PyExpr, arg: PyExpr, span: SourceSpan) -> (r: PyExpr)
    ensures
        r@ == spec_call(func@, seq![spec_pos(arg@, span)], span),
{
    let mut args: Vec<PyArgument> = Vec::new();
    args.push(pos_arg(arg, span));
    let r = PyExpr::Call { func: Box::new(func), args, span };
    assert(r@->Call_args =~= seq![spec_pos(arg@, span)]);
    r
}

pub(crate) fn call2(func: PyExpr, a: PyExpr, b: PyExpr, span: SourceSpan) -> (r: PyExpr)
    ensures
        r@ == spec_call(func@, seq![spec_pos(a@, span), spec_pos(b@, span)], span),
{
    let mut args: Vec<PyArgument> = Vec::new();
    args.push(pos_arg(a, span));
    args.push(pos_arg(b, span));
    let r = PyExpr::Call { func: Box::new(func), args, span };
    assert(r@->Call_args =~= seq![spec_pos(a@, span), spec_pos(b@, span)]);
    r
}

fn subprocess_object(kind: SubprocessKind, parts: Vec<PyFStringPart>, span: SourceSpan) -> (r: PyExpr)
    ensures
        r@ == subprocess_object_spec(
            kind,
            Seq::new(parts.len() as nat, |i: int| parts[i]@),
            span,
        ),
{
    let class_name = match kind {
        SubprocessKind::Capture => SNAIL_SUBPROCESS_CAPTURE_CLASS,
        SubprocessKind::Status => SNAIL_SUBPROCESS_STATUS_CLASS,
    };
    let ghost pv = Seq::new(parts.len() as nat, |i: int| parts[i]@);
    let command = PyExpr::FString { parts, span };
    assert(command@ == SpecPyExpr::FString { parts: pv, span }) by {
        assert(command@->FString_parts =~= pv);
    }
    call1(py_name(class_name, span), command, span)
}

fn pipeline_call(target: PyExpr, arg: PyExpr, span: SourceSpan) -> (r: PyExpr)
    ensures
        r@ == pipeline_call_spec(target@, arg@, span),
{
    call1(target, arg, span)
}

/// The error for a piped call with more than one placeholder, the first at
/// `span`.
fn placeholder_error(span: SourceSpan) -> (r: LowerError)
    ensures
        r.message@ == fault_message(LowerFault::MultiplePlaceholders(span)),
{
    let mut message = owned(PLACEHOLDER_MESSAGE);
    push_chars(&mut message, &u64_text(span.start.line as u64));
    push_str(&mut message, ":");
    push_chars(&mut message, &u64_text(span.start.column as u64));
    LowerError { message }
}

/// Lowers an expression; `exception_name` is the Python name bound to `$e`
/// inside a compact-try fallback, and `None` elsewhere.
pub fn lower_expr_with_exception(expr: &Expr, exception_name: Option<&str>) -> (r: Result<
    PyExpr,
    LowerError,
>)
    requires
        reportable(expr_fault(*expr, opt_str_view(exception_name))),
    ensures
        r is Ok <==> expr_fault(*expr, opt_str_view(exception_name)) is None,
        r matches Ok(p) ==> p@ == lower_expr_spec(*expr, opt_str_view(exception_name)),
        r matches Err(err) ==> err.message@ == fault_message(
            expr_fault(*expr, opt_str_view(exception_name)).unwrap(),
        ),
    decreases expr, 1int,
{
    match expr {
        Expr::Name { .. } | Expr::FieldIndex { .. } | Expr::Number { .. } | Expr::String { .. } | Expr::Bool { .. } | Expr::NoneLiteral { .. } | Expr::StructuredAccessor { .. } => lower_atom(expr, exception_name),
        Expr::Unary { .. } => lower_unary_expr(expr, exception_name),
        Expr::Binary { .. } => lower_binary_expr(expr, exception_name),
        Expr::Compare { .. } => lower_compare_expr(expr, exception_name),
        Expr::IfExpr { .. } => lower_if_expr(expr, exception_name),
        Expr::FString { .. } => lower_fstring_expr(expr, exception_name),
        Expr::TryExpr { .. } => lower_try_expr(expr, exception_name),
        Expr::Compound { .. } => lower_compound_expr(expr, exception_name),
        Expr::Regex { .. } => lower_regex_expr(expr, exception_name),
        Expr::RegexMatch { .. } => lower_regex_match_expr(expr, exception_name),
        Expr::Subprocess { .. } => lower_subprocess_expr(expr, exception_name),
        Expr::Call { .. } => lower_call_expr(expr, exception_name),
        Expr::Attribute { .. } => lower_attribute_expr(expr, exception_name),
        Expr::Index { .. } => lower_index_expr(expr, exception_name),
        Expr::Paren { .. } => lower_paren_expr(expr, exception_name),
        Expr::Slice { .. } => lower_slice_expr(expr, exception_name),
        Expr::List { .. } => lower_list_expr(expr, exception_name),
        Expr::Tuple { .. } => lower_tuple_expr(expr, exception_name),
        Expr::SetLiteral { .. } => lower_set_literal_expr(expr, exception_name),
        Expr::Dict { .. } => lower_dict_expr(expr, exception_name),
        Expr::ListComp { .. } => lower_list_comp_expr(expr, exception_name),
        Expr::DictComp { .. } => lower_dict_comp_expr(expr, exception_name),
    }
}

fn lower_name(name: &String, exception_name: Option<&str>, span: SourceSpan) -> (r: Result<PyExpr, LowerError>)
    ensures
        r is Ok <==> !(name@ == SNAIL_EXCEPTION_NAME@ && exception_name is None),
        r matches Ok(p) ==> p@ == lower_name_spec(name@, opt_str_view(exception_name), span),
        r matches Err(err) ==> err.message@ == DOLLAR_E_MESSAGE@,
{
    if str_eq(name.as_str(), SNAIL_EXCEPTION_NAME) {
        match exception_name {
            Some(en) => {
                return Ok(py_name(en, span));
            },
            None => {
                return Err(LowerError::new(DOLLAR_E_MESSAGE));
            },
        }
    }
    match injected_py_name(name.as_str()) {
        Some(py) => Ok(py_name(py, span)),
        None => Ok(PyExpr::Name { id: name.clone(), span }),
    }
}

fn lower_field_index(index: &String, span: SourceSpan) -> (r: Result<PyExpr, LowerError>)
    requires
        reportable(field_index_fault(index@)),
    ensures
        r is Ok <==> field_index_fault(index@) is None,
        r matches Ok(p) ==> p@ == lower_field_index_spec(index@, span),
        r matches Err(err) ==> err.message@ == fault_message(field_index_fault(index@).unwrap()),
{
    if str_eq(index.as_str(), "0") {
        Ok(py_name(SNAIL_AWK_LINE_PYVAR, span))
    } else {
        match parse_i32(&chars_of(index.as_str())) {
            None => {
                let mut message = owned(FIELD_INDEX_MESSAGE);
                message.append(index.as_str());
                Err(LowerError { message })
            },
            Some(v) => {
                let python_index: i64 = (v as i64) - 1;
                let digits = i64_text(python_index);
                let number = PyExpr::Number { value: string_from_chars(&digits), span };
                assert(number@ == SpecPyExpr::Number { value: digits@, span });
                Ok(
                    PyExpr::Index {
                        value: Box::new(py_name(SNAIL_AWK_FIELDS_PYVAR, span)),
                        index: Box::new(number),
                        span,
                    },
                )
            },
        }
    }
}

fn lower_atom(expr: &Expr, exception_name: Option<&str>) -> (r: Result<PyExpr, LowerError>)
    requires
        reportable(expr_fault(*expr, opt_str_view(exception_name))),
        *expr is Name || *expr is FieldIndex || *expr is Number || *expr is String || *expr is Bool || *expr is NoneLiteral || *expr is StructuredAccessor,
    ensures
        r is Ok <==> expr_fault(*expr, opt_str_view(exception_name)) is None,
        r matches Ok(p) ==> p@ == lower_expr_spec(*expr, opt_str_view(exception_name)),
        r matches Err(err) ==> err.message@ == fault_message(
            expr_fault(*expr, opt_str_view(exception_name)).unwrap(),
        ),
{
    let ghost x = opt_str_view(exception_name);
    match expr {
        Expr::Name { name, span } => lower_name(name, exception_name, *span),
        Expr::FieldIndex { index, span } => lower_field_index(index, *span),
        Expr::Number { value, span } => Ok(PyExpr::Number { value: value.clone(), span: *span }),
        Expr::String { value, raw, delimiter, span } => Ok(
            PyExpr::String { value: value.clone(), raw: *raw, delimiter: *delimiter, span: *span },
        ),
        Expr::Bool { value, span } => Ok(PyExpr::Bool { value: *value, span: *span }),
        Expr::NoneLiteral { span } => Ok(PyExpr::NoneLiteral { span: *span }),
        Expr::StructuredAccessor { query, span } => {
            let q = PyExpr::String {
                value: query.clone(),
                raw: false,
                delimiter: StringDelimiter::Double,
                span: *span,
            };
            Ok(call1(py_name(SNAIL_STRUCTURED_ACCESSOR_CLASS, *span), q, *span))
        },
        _ => Err(LowerError::new("")),
    }
}







fn lower_argument(arg: &Argument, exception_name: Option<&str>) -> (r: Result<PyArgument, LowerError>)
    requires
        reportable(arg_fault(*arg, opt_str_view(exception_name))),
    ensures
        r is Ok <==> arg_fault(*arg, opt_str_view(exception_name)) is None,
        r matches Ok(p) ==> p@ == lower_arg_spec(*arg, opt_str_view(exception_name)),
        r matches Err(err) ==> err.message@ == fault_message(
            arg_fault(*arg, opt_str_view(exception_name)).unwrap(),
        ),
    decreases arg, 0int,
{
    match arg {
        Argument::Positional { value, span } => {
            let v = lower_expr_with_exception(value, exception_name)?;
            Ok(PyArgument::Positional { value: v, span: *span })
        },
        Argument::Keyword { name, value, span } => {
            let v = lower_expr_with_exception(value, exception_name)?;
            Ok(PyArgument::Keyword { name: name.clone(), value: v, span: *span })
        },
        Argument::Star { value, span } => {
            let v = lower_expr_with_exception(value, exception_name)?;
            Ok(PyArgument::Star { value: v, span: *span })
        },
        Argument::KwStar { value, span } => {
            let v = lower_expr_with_exception(value, exception_name)?;
            Ok(PyArgument::KwStar { value: v, span: *span })
        },
    }
}

pub(crate) fn lower_exprs(v: &Vec<Expr>, exception_name: Option<&str>) -> (r: Result<Vec<PyExpr>, LowerError>)
    requires
        reportable(exprs_fault(v@, 0, opt_str_view(exception_name))),
    ensures
        r is Ok <==> exprs_fault(v@, 0, opt_str_view(exception_name)) is None,
        r matches Ok(out) ==> view_exprs(out) == lower_exprs_spec(*v, opt_str_view(exception_name)),
        r matches Err(err) ==> err.message@ == fault_message(
            exprs_fault(v@, 0, opt_str_view(exception_name)).unwrap(),
        ),
    decreases v, 0int,
{
    let ghost x = opt_str_view(exception_name);
    let mut out: Vec<PyExpr> = Vec::new();
    let mut i: usize = 0;
    while i < v.len()
        invariant
            i <= v.len(),
            out.len() == i,
            x == opt_str_view(exception_name),
            exprs_fault(v@, 0, x) == exprs_fault(v@, i as int, x),
            reportable(exprs_fault(v@, 0, x)),
            forall|j: int| 0 <= j < i ==> out[j]@ == lower_expr_spec(v[j], x),
        decreases v.len() - i,
    {
        proof {
            assert(decreases_to!(*v => v[i as int]));
        }
        let p = lower_expr_with_exception(&v[i], exception_name)?;
        out.push(p);
        i += 1;
    }
    assert(view_exprs(out) =~= lower_exprs_spec(*v, x));
    Ok(out)
}

fn lower_compare_ops(ops: &Vec<CompareOp>) -> (r: Vec<PyCompareOp>)
    ensures
        r@ == Seq::new(ops.len() as nat, |i: int| lower_compare_spec(ops[i])),
{
    let mut out: Vec<PyCompareOp> = Vec::new();
    let mut i: usize = 0;
    while i < ops.len()
        invariant
            i <= ops.len(),
            out.len() == i,
            forall|j: int| 0 <= j < i ==> out[j] == lower_compare_spec(ops[j]),
        decreases ops.len() - i,
    {
        out.push(lower_compare_op(ops[i]));
        i += 1;
    }
    assert(out@ =~= Seq::new(ops.len() as nat, |i: int| lower_compare_spec(ops[i])));
    out
}


fn lower_entries(v: &Vec<(Expr, Expr)>, exception_name: Option<&str>) -> (r: Result<
    Vec<(PyExpr, PyExpr)>,
    LowerError,
>)
    requires
        reportable(entries_fault(v@, 0, opt_str_view(exception_name))),
    ensures
        r is Ok <==> entries_fault(v@, 0, opt_str_view(exception_name)) is None,
        r matches Ok(out) ==> Seq::new(out.len() as nat, |i: int| (out[i].0@, out[i].1@))
            == lower_entries_spec(*v, opt_str_view(exception_name)),
        r matches Err(err) ==> err.message@ == fault_message(
            entries_fault(v@, 0, opt_str_view(exception_name)).unwrap(),
        ),
    decreases v, 0int,
{
    let ghost x = opt_str_view(exception_name);
    let mut out: Vec<(PyExpr, PyExpr)> = Vec::new();
    let mut i: usize = 0;
    while i < v.len()
        invariant
            i <= v.len(),
            out.len() == i,
            x == opt_str_view(exception_name),
            entries_fault(v@, 0, x) == entries_fault(v@, i as int, x),
            reportable(entries_fault(v@, 0, x)),
            forall|j: int|
                0 <= j < i ==> out[j].0@ == lower_expr_spec(v[j].0, x) && out[j].1@
                    == lower_expr_spec(v[j].1, x),
        decreases v.len() - i,
    {
        proof {
            assert(decreases_to!(*v => v[i as int]));
            assert(decreases_to!(v[i as int] => v[i as int].0));
            assert(decreases_to!(v[i as int] => v[i as int].1));
        }
        let (key, value) = &v[i];
        let k = lower_expr_with_exception(key, exception_name)?;
        let val = lower_expr_with_exception(value, exception_name)?;
        out.push((k, val));
        i += 1;
    }
    assert(Seq::new(out.len() as nat, |i: int| (out[i].0@, out[i].1@)) =~= lower_entries_spec(*v, x));
    Ok(out)
}


pub fn lower_fstring_parts(parts: &Vec<FStringPart>, exception_name: Option<&str>) -> (r: Result<
    Vec<PyFStringPart>,
    LowerError,
>)
    requires
        reportable(fparts_fault(parts@, 0, opt_str_view(exception_name))),
    ensures
        r is Ok <==> fparts_fault(parts@, 0, opt_str_view(exception_name)) is None,
        r matches Ok(out) ==> Seq::new(out.len() as nat, |i: int| out[i]@) == lower_fparts_spec(
            *parts,
            opt_str_view(exception_name),
        ),
        r matches Err(err) ==> err.message@ == fault_message(
            fparts_fault(parts@, 0, opt_str_view(exception_name)).unwrap(),
        ),
    decreases parts, 0int,
{
    let ghost x = opt_str_view(exception_name);
    let mut out: Vec<PyFStringPart> = Vec::new();
    let mut i: usize = 0;
    while i < parts.len()
        invariant
            i <= parts.len(),
            out.len() == i,
            x == opt_str_view(exception_name),
            fparts_fault(parts@, 0, x) == fparts_fault(parts@, i as int, x),
            reportable(fparts_fault(parts@, 0, x)),
            forall|j: int| 0 <= j < i ==> out[j]@ == lower_fpart_spec(parts[j], x),
        decreases parts.len() - i,
    {
        proof {
            assert(decreases_to!(*parts => parts[i as int]));
        }
        let p = lower_fstring_part(&parts[i], exception_name)?;
        out.push(p);
        i += 1;
    }
    assert(Seq::new(out.len() as nat, |i: int| out[i]@) =~= lower_fparts_spec(*parts, x));
    Ok(out)
}


fn lower_subprocess_parts(parts: &Vec<SubprocessPart>, exception_name: Option<&str>) -> (r: Result<
    Vec<PyFStringPart>,
    LowerError,
>)
    requires
        reportable(subparts_fault(parts@, 0, opt_str_view(exception_name))),
    ensures
        r is Ok <==> subparts_fault(parts@, 0, opt_str_view(exception_name)) is None,
        r matches Ok(out) ==> Seq::new(out.len() as nat, |i: int| out[i]@) == lower_subparts_spec(
            *parts,
            opt_str_view(exception_name),
        ),
        r matches Err(err) ==> err.message@ == fault_message(
            subparts_fault(parts@, 0, opt_str_view(exception_name)).unwrap(),
        ),
    decreases parts, 0int,
{
    let ghost x = opt_str_view(exception_name);
    let mut out: Vec<PyFStringPart> = Vec::new();
    let mut i: usize = 0;
    while i < parts.len()
        invariant
            i <= parts.len(),
            out.len() == i,
            x == opt_str_view(exception_name),
            subparts_fault(parts@, 0, x) == subparts_fault(parts@, i as int, x),
            reportable(subparts_fault(parts@, 0, x)),
            forall|j: int| 0 <= j < i ==> out[j]@ == lower_subpart_spec(parts[j], x),
        decreases parts.len() - i,
    {
        proof {
            assert(decreases_to!(*parts => parts[i as int]));
        }
        let p = lower_subprocess_part(&parts[i], exception_name)?;
        out.push(p);
        i += 1;
    }
    assert(Seq::new(out.len() as nat, |i: int| out[i]@) =~= lower_subparts_spec(*parts, x));
    Ok(out)
}


pub(crate) fn lower_regex_pattern_expr(pattern: &RegexPattern, span: SourceSpan, exception_name: Option<&str>) -> (r: Result<
    PyExpr,
    LowerError,
>)
    requires
        reportable(pattern_fault(*pattern, opt_str_view(exception_name))),
    ensures
        r is Ok <==> pattern_fault(*pattern, opt_str_view(exception_name)) is None,
        r matches Ok(p) ==> p@ == lower_pattern_spec(*pattern, span, opt_str_view(exception_name)),
        r matches Err(err) ==> err.message@ == fault_message(
            pattern_fault(*pattern, opt_str_view(exception_name)).unwrap(),
        ),
    decreases pattern, 0int,
{
    match pattern {
        RegexPattern::Literal(text) => Ok(
            PyExpr::String {
                value: text.clone(),
                raw: true,
                delimiter: StringDelimiter::Double,
                span,
            },
        ),
        RegexPattern::Interpolated(parts) => {
            let lowered = lower_fstring_parts(parts, exception_name)?;
            let r = PyExpr::FString { parts: lowered, span };
            assert(r@->FString_parts =~= lower_fparts_spec(*parts, opt_str_view(exception_name)));
            Ok(r)
        },
    }
}


pub(crate) fn lower_regex_match(value: &Expr, pattern: &RegexPattern, span: SourceSpan, exception_name: Option<
    &str,
>) -> (r: Result<PyExpr, LowerError>)
    requires
        reportable(
            first_fault(
                expr_fault(*value, opt_str_view(exception_name)),
                pattern_fault(*pattern, opt_str_view(exception_name)),
            ),
        ),
    ensures
        r is Ok <==> first_fault(
            expr_fault(*value, opt_str_view(exception_name)),
            pattern_fault(*pattern, opt_str_view(exception_name)),
        ) is None,
        r matches Ok(p) ==> p@ == spec_call(
            spec_name(SNAIL_REGEX_SEARCH@, span),
            seq![
                spec_pos(lower_expr_spec(*value, opt_str_view(exception_name)), span),
                spec_pos(lower_pattern_spec(*pattern, span, opt_str_view(exception_name)), span),
            ],
            span,
        ),
        r matches Err(err) ==> err.message@ == fault_message(
            first_fault(
                expr_fault(*value, opt_str_view(exception_name)),
                pattern_fault(*pattern, opt_str_view(exception_name)),
            ).unwrap(),
        ),
{
    let v = lower_expr_with_exception(value, exception_name)?;
    let p = lower_regex_pattern_expr(pattern, span, exception_name)?;
    Ok(call2(py_name(SNAIL_REGEX_SEARCH, span), v, p, span))
}


fn lower_arguments(args: &Vec<Argument>, exception_name: Option<&str>) -> (r: Result<
    Vec<PyArgument>,
    LowerError,
>)
    requires
        reportable(args_fault(args@, 0, opt_str_view(exception_name))),
    ensures
        r is Ok <==> args_fault(args@, 0, opt_str_view(exception_name)) is None,
        r matches Ok(out) ==> Seq::new(out.len() as nat, |i: int| out[i]@) == lower_args_spec(
            *args,
            opt_str_view(exception_name),
        ),
        r matches Err(err) ==> err.message@ == fault_message(
            args_fault(args@, 0, opt_str_view(exception_name)).unwrap(),
        ),
    decreases args, 0int,
{
    let ghost x = opt_str_view(exception_name);
    let mut out: Vec<PyArgument> = Vec::new();
    let mut i: usize = 0;
    while i < args.len()
        invariant
            i <= args.len(),
            out.len() == i,
            x == opt_str_view(exception_name),
            args_fault(args@, 0, x) == args_fault(args@, i as int, x),
            reportable(args_fault(args@, 0, x)),
            forall|j: int| 0 <= j < i ==> out[j]@ == lower_arg_spec(args[j], x),
        decreases args.len() - i,
    {
        proof {
            assert(decreases_to!(*args => args[i as int]));
        }
        let a = lower_argument(&args[i], exception_name)?;
        out.push(a);
        i += 1;
    }
    assert(Seq::new(out.len() as nat, |i: int| out[i]@) =~= lower_args_spec(*args, x));
    Ok(out)
}


/// Lowers an expression outside any compact-try fallback.
pub fn lower_expr(expr: &Expr) -> (r: Result<PyExpr, LowerError>)
    requires
        reportable(expr_fault(*expr, None)),
    ensures
        r is Ok <==> expr_fault(*expr, None) is None,
        r matches Ok(p) ==> p@ == lower_expr_spec(*expr, None),
        r matches Err(err) ==> err.message@ == fault_message(expr_fault(*expr, None).unwrap()),
{
    lower_expr_with_exception(expr, None)
}

fn lower_fstring_part(part: &FStringPart, exception_name: Option<&str>) -> (r: Result<PyFStringPart, LowerError>)
    requires
        reportable(fpart_fault(*part, opt_str_view(exception_name))),
    ensures
        r is Ok <==> fpart_fault(*part, opt_str_view(exception_name)) is None,
        r matches Ok(p) ==> p@ == lower_fpart_spec(*part, opt_str_view(exception_name)),
        r matches Err(err) ==> err.message@ == fault_message(
            fpart_fault(*part, opt_str_view(exception_name)).unwrap(),
        ),
    decreases part, 0int,
{
    match part {
        FStringPart::Text(text) => Ok(PyFStringPart::Text(text.clone())),
        FStringPart::Expr(e) => {
            let p = lower_expr_with_exception(e, exception_name)?;
            Ok(PyFStringPart::Expr(p))
        },
    }
}

fn lower_subprocess_part(part: &SubprocessPart, exception_name: Option<&str>) -> (r: Result<PyFStringPart, LowerError>)
    requires
        reportable(subpart_fault(*part, opt_str_view(exception_name))),
    ensures
        r is Ok <==> subpart_fault(*part, opt_str_view(exception_name)) is None,
        r matches Ok(p) ==> p@ == lower_subpart_spec(*part, opt_str_view(exception_name)),
        r matches Err(err) ==> err.message@ == fault_message(
            subpart_fault(*part, opt_str_view(exception_name)).unwrap(),
        ),
    decreases part, 0int,
{
    match part {
        SubprocessPart::Text(text) => Ok(PyFStringPart::Text(text.clone())),
        SubprocessPart::Expr(e) => {
            let p = lower_expr_with_exception(e, exception_name)?;
            Ok(PyFStringPart::Expr(p))
        },
    }
}

fn lower_unary_expr(expr: &Expr, exception_name: Option<&str>) -> (r: Result<PyExpr, LowerError>)
    requires
        reportable(expr_fault(*expr, opt_str_view(exception_name))),
        *expr is Unary,
    ensures
        r is Ok <==> expr_fault(*expr, opt_str_view(exception_name)) is None,
        r matches Ok(p) ==> p@ == lower_expr_spec(*expr, opt_str_view(exception_name)),
        r matches Err(err) ==> err.message@ == fault_message(
            expr_fault(*expr, opt_str_view(exception_name)).unwrap(),
        ),
    decreases expr, 0int,
{
    let ghost x = opt_str_view(exception_name);
    match expr {
        Expr::Unary { op, expr: operand, span } => {
            let lowered = lower_expr_with_exception(operand, exception_name)?;
            Ok(PyExpr::Unary { op: lower_unary_op(*op), operand: Box::new(lowered), span: *span })
        },
        _ => Err(LowerError::new("")),
    }
}

#[verifier::rlimit(40)]
fn lower_binary_expr(expr: &Expr, exception_name: Option<&str>) -> (r: Result<PyExpr, LowerError>)
    requires
        reportable(expr_fault(*expr, opt_str_view(exception_name))),
        *expr is Binary,
    ensures
        r is Ok <==> expr_fault(*expr, opt_str_view(exception_name)) is None,
        r matches Ok(p) ==> p@ == lower_expr_spec(*expr, opt_str_view(exception_name)),
        r matches Err(err) ==> err.message@ == fault_message(
            expr_fault(*expr, opt_str_view(exception_name)).unwrap(),
        ),
    decreases expr, 0int,
{
    let ghost x = opt_str_view(exception_name);
    match expr {
        Expr::Binary { left, op, right, span } => {
            match op {
                BinaryOp::Pipeline => {
                    match &**right {
                        Expr::Subprocess { kind, parts, span: s_span } => {
                            let left_expr = lower_expr_with_exception(left, exception_name)?;
                            let lowered = lower_subprocess_parts(parts, exception_name)?;
                            let ghost lv = Seq::new(lowered.len() as nat, |i: int| lowered[i]@);
                            assert(lv =~= lower_subparts_spec(*parts, x));
                            Ok(pipeline_call(subprocess_object(*kind, lowered, *s_span), left_expr, *span))
                        },
                        Expr::Call { func, args, span: c_span } => {
                            let (count, first) = args_count(args);
                            if count >= 2 {
                                let at = match first {
                                    Some(s) => s,
                                    None => *c_span,
                                };
                                return Err(placeholder_error(at));
                            }
                            let left_expr = lower_expr_with_exception(left, exception_name)?;
                            let f = lower_expr_with_exception(func, exception_name)?;
                            let lowered = lower_arguments(args, exception_name)?;
                            let ghost lv = Seq::new(lowered.len() as nat, |i: int| lowered[i]@);
                            assert(lv =~= lower_args_spec(*args, x));
                            if count == 1 {
                                let filled = fill_arg_vec(&lowered, &left_expr, true);
                                let r = PyExpr::Call { func: Box::new(f), args: filled, span: *span };
                                assert forall|i: int| 0 <= i < filled.len() implies r@->Call_args[i]
                                    == fill_args(lv, lower_expr_spec(**left, x), true)[i] by {
                                    assert(lv[i] == lowered[i]@);
                                    assert(filled[i]@ == fill_arg(lowered[i]@, left_expr@, true));
                                }
                                assert(r@->Call_args =~= fill_args(lv, lower_expr_spec(**left, x), true));
                                Ok(r)
                            } else {
                                let target = PyExpr::Call { func: Box::new(f), args: lowered, span: *c_span };
                                assert(target@->Call_args =~= lv);
                                Ok(pipeline_call(target, left_expr, *span))
                            }
                        },
                        _ => {
                            let left_expr = lower_expr_with_exception(left, exception_name)?;
                            let target = lower_expr_with_exception(right, exception_name)?;
                            Ok(pipeline_call(target, left_expr, *span))
                        },
                    }
                },
                _ => {
                    let l = lower_expr_with_exception(left, exception_name)?;
                    let r = lower_expr_with_exception(right, exception_name)?;
                    Ok(
                        PyExpr::Binary {
                            left: Box::new(l),
                            op: lower_binary_op(*op),
                            right: Box::new(r),
                            span: *span,
                        },
                    )
                },
            }
        },
        _ => Err(LowerError::new("")),
    }
}

fn lower_compare_expr(expr: &Expr, exception_name: Option<&str>) -> (r: Result<PyExpr, LowerError>)
    requires
        reportable(expr_fault(*expr, opt_str_view(exception_name))),
        *expr is Compare,
    ensures
        r is Ok <==> expr_fault(*expr, opt_str_view(exception_name)) is None,
        r matches Ok(p) ==> p@ == lower_expr_spec(*expr, opt_str_view(exception_name)),
        r matches Err(err) ==> err.message@ == fault_message(
            expr_fault(*expr, opt_str_view(exception_name)).unwrap(),
        ),
    decreases expr, 0int,
{
    let ghost x = opt_str_view(exception_name);
    match expr {
        Expr::Compare { left, ops, comparators, span } => {
            let l = lower_expr_with_exception(left, exception_name)?;
            let pops = lower_compare_ops(ops);
            let pcs = lower_exprs(comparators, exception_name)?;
            Ok(PyExpr::Compare { left: Box::new(l), ops: pops, comparators: pcs, span: *span })
        },
        _ => Err(LowerError::new("")),
    }
}

fn lower_if_expr(expr: &Expr, exception_name: Option<&str>) -> (r: Result<PyExpr, LowerError>)
    requires
        reportable(expr_fault(*expr, opt_str_view(exception_name))),
        *expr is IfExpr,
    ensures
        r is Ok <==> expr_fault(*expr, opt_str_view(exception_name)) is None,
        r matches Ok(p) ==> p@ == lower_expr_spec(*expr, opt_str_view(exception_name)),
        r matches Err(err) ==> err.message@ == fault_message(
            expr_fault(*expr, opt_str_view(exception_name)).unwrap(),
        ),
    decreases expr, 0int,
{
    let ghost x = opt_str_view(exception_name);
    match expr {
        Expr::IfExpr { test, body, orelse, span } => {
            let t = lower_expr_with_exception(test, exception_name)?;
            let b = lower_expr_with_exception(body, exception_name)?;
            let o = lower_expr_with_exception(orelse, exception_name)?;
            Ok(
                PyExpr::IfExpr {
                    test: Box::new(t),
                    body: Box::new(b),
                    orelse: Box::new(o),
                    span: *span,
                },
            )
        },
        _ => Err(LowerError::new("")),
    }
}

fn lower_fstring_expr(expr: &Expr, exception_name: Option<&str>) -> (r: Result<PyExpr, LowerError>)
    requires
        reportable(expr_fault(*expr, opt_str_view(exception_name))),
        *expr is FString,
    ensures
        r is Ok <==> expr_fault(*expr, opt_str_view(exception_name)) is None,
        r matches Ok(p) ==> p@ == lower_expr_spec(*expr, opt_str_view(exception_name)),
        r matches Err(err) ==> err.message@ == fault_message(
            expr_fault(*expr, opt_str_view(exception_name)).unwrap(),
        ),
    decreases expr, 0int,
{
    let ghost x = opt_str_view(exception_name);
    match expr {
        Expr::FString { parts, span } => {
            let lowered = lower_fstring_parts(parts, exception_name)?;
            let r = PyExpr::FString { parts: lowered, span: *span };
            assert(r@->FString_parts =~= lower_fparts_spec(*parts, x));
            Ok(r)
        },
        _ => Err(LowerError::new("")),
    }
}

fn lower_try_expr(expr: &Expr, exception_name: Option<&str>) -> (r: Result<PyExpr, LowerError>)
    requires
        reportable(expr_fault(*expr, opt_str_view(exception_name))),
        *expr is TryExpr,
    ensures
        r is Ok <==> expr_fault(*expr, opt_str_view(exception_name)) is None,
        r matches Ok(p) ==> p@ == lower_expr_spec(*expr, opt_str_view(exception_name)),
        r matches Err(err) ==> err.message@ == fault_message(
            expr_fault(*expr, opt_str_view(exception_name)).unwrap(),
        ),
    decreases expr, 0int,
{
    let ghost x = opt_str_view(exception_name);
    match expr {
        Expr::TryExpr { expr: inner, fallback, span } => {
            let body = lower_expr_with_exception(inner, exception_name)?;
            let try_lambda = PyExpr::Lambda { params: Vec::new(), body: Box::new(body), span: *span };
            assert(try_lambda@->Lambda_params =~= Seq::<Seq<char>>::empty());
            let mut args: Vec<PyArgument> = Vec::new();
            args.push(pos_arg(try_lambda, *span));
            match fallback {
                Some(f) => {
                    let fb = lower_expr_with_exception(f, Some(SNAIL_EXCEPTION_VAR))?;
                    let mut params: Vec<String> = Vec::new();
                    params.push(owned(SNAIL_EXCEPTION_VAR));
                    let fallback_lambda = PyExpr::Lambda { params, body: Box::new(fb), span: *span };
                    assert(fallback_lambda@->Lambda_params =~= seq![SNAIL_EXCEPTION_VAR@]);
                    args.push(pos_arg(fallback_lambda, *span));
                },
                None => {},
            }
            let r = PyExpr::Call { func: Box::new(py_name(SNAIL_TRY_HELPER, *span)), args, span: *span };
            assert(r@->Call_args =~= lower_expr_spec(*expr, x)->Call_args);
            Ok(r)
        },
        _ => Err(LowerError::new("")),
    }
}

fn lower_compound_expr(expr: &Expr, exception_name: Option<&str>) -> (r: Result<PyExpr, LowerError>)
    requires
        reportable(expr_fault(*expr, opt_str_view(exception_name))),
        *expr is Compound,
    ensures
        r is Ok <==> expr_fault(*expr, opt_str_view(exception_name)) is None,
        r matches Ok(p) ==> p@ == lower_expr_spec(*expr, opt_str_view(exception_name)),
        r matches Err(err) ==> err.message@ == fault_message(
            expr_fault(*expr, opt_str_view(exception_name)).unwrap(),
        ),
    decreases expr, 0int,
{
    let ghost x = opt_str_view(exception_name);
    match expr {
        Expr::Compound { expressions, span } => {
            let lowered = lower_exprs(expressions, exception_name)?;
            let tuple = PyExpr::Tuple { elements: lowered, span: *span };
            assert(tuple@ == SpecPyExpr::Tuple { elements: lower_exprs_spec(*expressions, x), span: *span });
            let one = PyExpr::Number { value: owned("1"), span: *span };
            assert(one@ == SpecPyExpr::Number { value: "1"@, span: *span });
            let last = PyExpr::Unary { op: PyUnaryOp::Minus, operand: Box::new(one), span: *span };
            assert(last@ == SpecPyExpr::Unary {
                op: PyUnaryOp::Minus,
                operand: Box::new(SpecPyExpr::Number { value: "1"@, span: *span }),
                span: *span,
            });
            Ok(PyExpr::Index { value: Box::new(tuple), index: Box::new(last), span: *span })
        },
        _ => Err(LowerError::new("")),
    }
}

fn lower_regex_expr(expr: &Expr, exception_name: Option<&str>) -> (r: Result<PyExpr, LowerError>)
    requires
        reportable(expr_fault(*expr, opt_str_view(exception_name))),
        *expr is Regex,
    ensures
        r is Ok <==> expr_fault(*expr, opt_str_view(exception_name)) is None,
        r matches Ok(p) ==> p@ == lower_expr_spec(*expr, opt_str_view(exception_name)),
        r matches Err(err) ==> err.message@ == fault_message(
            expr_fault(*expr, opt_str_view(exception_name)).unwrap(),
        ),
    decreases expr, 0int,
{
    let ghost x = opt_str_view(exception_name);
    match expr {
        Expr::Regex { pattern, span } => {
            let p = lower_regex_pattern_expr(pattern, *span, exception_name)?;
            Ok(call1(py_name(SNAIL_REGEX_COMPILE, *span), p, *span))
        },
        _ => Err(LowerError::new("")),
    }
}

fn lower_regex_match_expr(expr: &Expr, exception_name: Option<&str>) -> (r: Result<PyExpr, LowerError>)
    requires
        reportable(expr_fault(*expr, opt_str_view(exception_name))),
        *expr is RegexMatch,
    ensures
        r is Ok <==> expr_fault(*expr, opt_str_view(exception_name)) is None,
        r matches Ok(p) ==> p@ == lower_expr_spec(*expr, opt_str_view(exception_name)),
        r matches Err(err) ==> err.message@ == fault_message(
            expr_fault(*expr, opt_str_view(exception_name)).unwrap(),
        ),
    decreases expr, 0int,
{
    let ghost x = opt_str_view(exception_name);
    match expr {
        Expr::RegexMatch { value, pattern, span } => {
            let v = lower_expr_with_exception(value, exception_name)?;
            let p = lower_regex_pattern_expr(pattern, *span, exception_name)?;
            Ok(call2(py_name(SNAIL_REGEX_SEARCH, *span), v, p, *span))
        },
        _ => Err(LowerError::new("")),
    }
}

fn lower_subprocess_expr(expr: &Expr, exception_name: Option<&str>) -> (r: Result<PyExpr, LowerError>)
    requires
        reportable(expr_fault(*expr, opt_str_view(exception_name))),
        *expr is Subprocess,
    ensures
        r is Ok <==> expr_fault(*expr, opt_str_view(exception_name)) is None,
        r matches Ok(p) ==> p@ == lower_expr_spec(*expr, opt_str_view(exception_name)),
        r matches Err(err) ==> err.message@ == fault_message(
            expr_fault(*expr, opt_str_view(exception_name)).unwrap(),
        ),
    decreases expr, 0int,
{
    let ghost x = opt_str_view(exception_name);
    match expr {
        Expr::Subprocess { kind, parts, span } => {
            let lowered = lower_subprocess_parts(parts, exception_name)?;
            let ghost lv = Seq::new(lowered.len() as nat, |i: int| lowered[i]@);
            assert(lv =~= lower_subparts_spec(*parts, x));
            let obj = subprocess_object(*kind, lowered, *span);
            let r = PyExpr::Call { func: Box::new(obj), args: Vec::new(), span: *span };
            assert(r@->Call_args =~= Seq::<SpecPyArgument>::empty());
            Ok(r)
        },
        _ => Err(LowerError::new("")),
    }
}

fn lower_call_expr(expr: &Expr, exception_name: Option<&str>) -> (r: Result<PyExpr, LowerError>)
    requires
        reportable(expr_fault(*expr, opt_str_view(exception_name))),
        *expr is Call,
    ensures
        r is Ok <==> expr_fault(*expr, opt_str_view(exception_name)) is None,
        r matches Ok(p) ==> p@ == lower_expr_spec(*expr, opt_str_view(exception_name)),
        r matches Err(err) ==> err.message@ == fault_message(
            expr_fault(*expr, opt_str_view(exception_name)).unwrap(),
        ),
    decreases expr, 0int,
{
    let ghost x = opt_str_view(exception_name);
    match expr {
        Expr::Call { func, args, span } => {
            let f = lower_expr_with_exception(func, exception_name)?;
            let a = lower_arguments(args, exception_name)?;
            let r = PyExpr::Call { func: Box::new(f), args: a, span: *span };
            assert(r@->Call_args =~= lower_args_spec(*args, x));
            Ok(r)
        },
        _ => Err(LowerError::new("")),
    }
}

fn lower_attribute_expr(expr: &Expr, exception_name: Option<&str>) -> (r: Result<PyExpr, LowerError>)
    requires
        reportable(expr_fault(*expr, opt_str_view(exception_name))),
        *expr is Attribute,
    ensures
        r is Ok <==> expr_fault(*expr, opt_str_view(exception_name)) is None,
        r matches Ok(p) ==> p@ == lower_expr_spec(*expr, opt_str_view(exception_name)),
        r matches Err(err) ==> err.message@ == fault_message(
            expr_fault(*expr, opt_str_view(exception_name)).unwrap(),
        ),
    decreases expr, 0int,
{
    let ghost x = opt_str_view(exception_name);
    match expr {
        Expr::Attribute { value, attr, span } => {
            let v = lower_expr_with_exception(value, exception_name)?;
            Ok(PyExpr::Attribute { value: Box::new(v), attr: attr.clone(), span: *span })
        },
        _ => Err(LowerError::new("")),
    }
}

fn lower_index_expr(expr: &Expr, exception_name: Option<&str>) -> (r: Result<PyExpr, LowerError>)
    requires
        reportable(expr_fault(*expr, opt_str_view(exception_name))),
        *expr is Index,
    ensures
        r is Ok <==> expr_fault(*expr, opt_str_view(exception_name)) is None,
        r matches Ok(p) ==> p@ == lower_expr_spec(*expr, opt_str_view(exception_name)),
        r matches Err(err) ==> err.message@ == fault_message(
            expr_fault(*expr, opt_str_view(exception_name)).unwrap(),
        ),
    decreases expr, 0int,
{
    let ghost x = opt_str_view(exception_name);
    match expr {
        Expr::Index { value, index, span } => {
            let v = lower_expr_with_exception(value, exception_name)?;
            let i = lower_expr_with_exception(index, exception_name)?;
            Ok(PyExpr::Index { value: Box::new(v), index: Box::new(i), span: *span })
        },
        _ => Err(LowerError::new("")),
    }
}

fn lower_paren_expr(expr: &Expr, exception_name: Option<&str>) -> (r: Result<PyExpr, LowerError>)
    requires
        reportable(expr_fault(*expr, opt_str_view(exception_name))),
        *expr is Paren,
    ensures
        r is Ok <==> expr_fault(*expr, opt_str_view(exception_name)) is None,
        r matches Ok(p) ==> p@ == lower_expr_spec(*expr, opt_str_view(exception_name)),
        r matches Err(err) ==> err.message@ == fault_message(
            expr_fault(*expr, opt_str_view(exception_name)).unwrap(),
        ),
    decreases expr, 0int,
{
    let ghost x = opt_str_view(exception_name);
    match expr {
        Expr::Paren { expr: inner, span } => {
            let v = lower_expr_with_exception(inner, exception_name)?;
            Ok(PyExpr::Paren { expr: Box::new(v), span: *span })
        },
        _ => Err(LowerError::new("")),
    }
}

fn lower_slice_expr(expr: &Expr, exception_name: Option<&str>) -> (r: Result<PyExpr, LowerError>)
    requires
        reportable(expr_fault(*expr, opt_str_view(exception_name))),
        *expr is Slice,
    ensures
        r is Ok <==> expr_fault(*expr, opt_str_view(exception_name)) is None,
        r matches Ok(p) ==> p@ == lower_expr_spec(*expr, opt_str_view(exception_name)),
        r matches Err(err) ==> err.message@ == fault_message(
            expr_fault(*expr, opt_str_view(exception_name)).unwrap(),
        ),
    decreases expr, 0int,
{
    let ghost x = opt_str_view(exception_name);
    match expr {
        Expr::Slice { start, end, span } => {
            let s = match start {
                Some(b) => Some(Box::new(lower_expr_with_exception(b, exception_name)?)),
                None => None,
            };
            let e = match end {
                Some(b) => Some(Box::new(lower_expr_with_exception(b, exception_name)?)),
                None => None,
            };
            Ok(PyExpr::Slice { start: s, end: e, span: *span })
        },
        _ => Err(LowerError::new("")),
    }
}

fn lower_list_expr(expr: &Expr, exception_name: Option<&str>) -> (r: Result<PyExpr, LowerError>)
    requires
        reportable(expr_fault(*expr, opt_str_view(exception_name))),
        *expr is List,
    ensures
        r is Ok <==> expr_fault(*expr, opt_str_view(exception_name)) is None,
        r matches Ok(p) ==> p@ == lower_expr_spec(*expr, opt_str_view(exception_name)),
        r matches Err(err) ==> err.message@ == fault_message(
            expr_fault(*expr, opt_str_view(exception_name)).unwrap(),
        ),
    decreases expr, 0int,
{
    let ghost x = opt_str_view(exception_name);
    match expr {
        Expr::List { elements, span } => {
            let lowered = lower_exprs(elements, exception_name)?;
            Ok(PyExpr::List { elements: lowered, span: *span })
        },
        _ => Err(LowerError::new("")),
    }
}

fn lower_tuple_expr(expr: &Expr, exception_name: Option<&str>) -> (r: Result<PyExpr, LowerError>)
    requires
        reportable(expr_fault(*expr, opt_str_view(exception_name))),
        *expr is Tuple,
    ensures
        r is Ok <==> expr_fault(*expr, opt_str_view(exception_name)) is None,
        r matches Ok(p) ==> p@ == lower_expr_spec(*expr, opt_str_view(exception_name)),
        r matches Err(err) ==> err.message@ == fault_message(
            expr_fault(*expr, opt_str_view(exception_name)).unwrap(),
        ),
    decreases expr, 0int,
{
    let ghost x = opt_str_view(exception_name);
    match expr {
        Expr::Tuple { elements, span } => {
            let lowered = lower_exprs(elements, exception_name)?;
            Ok(PyExpr::Tuple { elements: lowered, span: *span })
        },
        _ => Err(LowerError::new("")),
    }
}

fn lower_set_literal_expr(expr: &Expr, exception_name: Option<&str>) -> (r: Result<PyExpr, LowerError>)
    requires
        reportable(expr_fault(*expr, opt_str_view(exception_name))),
        *expr is SetLiteral,
    ensures
        r is Ok <==> expr_fault(*expr, opt_str_view(exception_name)) is None,
        r matches Ok(p) ==> p@ == lower_expr_spec(*expr, opt_str_view(exception_name)),
        r matches Err(err) ==> err.message@ == fault_message(
            expr_fault(*expr, opt_str_view(exception_name)).unwrap(),
        ),
    decreases expr, 0int,
{
    let ghost x = opt_str_view(exception_name);
    match expr {
        Expr::SetLiteral { elements, span } => {
            let lowered = lower_exprs(elements, exception_name)?;
            Ok(PyExpr::SetLiteral { elements: lowered, span: *span })
        },
        _ => Err(LowerError::new("")),
    }
}

fn lower_dict_expr(expr: &Expr, exception_name: Option<&str>) -> (r: Result<PyExpr, LowerError>)
    requires
        reportable(expr_fault(*expr, opt_str_view(exception_name))),
        *expr is Dict,
    ensures
        r is Ok <==> expr_fault(*expr, opt_str_view(exception_name)) is None,
        r matches Ok(p) ==> p@ == lower_expr_spec(*expr, opt_str_view(exception_name)),
        r matches Err(err) ==> err.message@ == fault_message(
            expr_fault(*expr, opt_str_view(exception_name)).unwrap(),
        ),
    decreases expr, 0int,
{
    let ghost x = opt_str_view(exception_name);
    match expr {
        Expr::Dict { entries, span } => {
            let lowered = lower_entries(entries, exception_name)?;
            let r = PyExpr::Dict { entries: lowered, span: *span };
            assert(r@->Dict_entries =~= lower_entries_spec(*entries, x));
            Ok(r)
        },
        _ => Err(LowerError::new("")),
    }
}

fn lower_list_comp_expr(expr: &Expr, exception_name: Option<&str>) -> (r: Result<PyExpr, LowerError>)
    requires
        reportable(expr_fault(*expr, opt_str_view(exception_name))),
        *expr is ListComp,
    ensures
        r is Ok <==> expr_fault(*expr, opt_str_view(exception_name)) is None,
        r matches Ok(p) ==> p@ == lower_expr_spec(*expr, opt_str_view(exception_name)),
        r matches Err(err) ==> err.message@ == fault_message(
            expr_fault(*expr, opt_str_view(exception_name)).unwrap(),
        ),
    decreases expr, 0int,
{
    let ghost x = opt_str_view(exception_name);
    match expr {
        Expr::ListComp { element, target, iter, ifs, span } => {
            let lowered_ifs = lower_exprs(ifs, exception_name)?;
            let el = lower_expr_with_exception(element, exception_name)?;
            let it = lower_expr_with_exception(iter, exception_name)?;
            Ok(
                PyExpr::ListComp {
                    element: Box::new(el),
                    target: target.clone(),
                    iter: Box::new(it),
                    ifs: lowered_ifs,
                    span: *span,
                },
            )
        },
        _ => Err(LowerError::new("")),
    }
}

fn lower_dict_comp_expr(expr: &Expr, exception_name: Option<&str>) -> (r: Result<PyExpr, LowerError>)
    requires
        reportable(expr_fault(*expr, opt_str_view(exception_name))),
        *expr is DictComp,
    ensures
        r is Ok <==> expr_fault(*expr, opt_str_view(exception_name)) is None,
        r matches Ok(p) ==> p@ == lower_expr_spec(*expr, opt_str_view(exception_name)),
        r matches Err(err) ==> err.message@ == fault_message(
            expr_fault(*expr, opt_str_view(exception_name)).unwrap(),
        ),
    decreases expr, 0int,
{
    let ghost x = opt_str_view(exception_name);
    match expr {
        Expr::DictComp { key, value, target, iter, ifs, span } => {
            let lowered_ifs = lower_exprs(ifs, exception_name)?;
            let k = lower_expr_with_exception(key, exception_name)?;
            let v = lower_expr_with_exception(value, exception_name)?;
            let it = lower_expr_with_exception(iter, exception_name)?;
            Ok(
                PyExpr::DictComp {
                    key: Box::new(k),
                    value: Box::new(v),
                    target: target.clone(),
                    iter: Box::new(it),
                    ifs: lowered_ifs,
                    span: *span,
                },
            )
        },
        _ => Err(LowerError::new("")),
    }
}

// ---------------------------------------------------------------------------
// Faults and model of statement lowering. Statements are lowered outside any
// compact-try fallback.

pub open spec fn opt_expr_fault(o: Option<Expr>) -> Option<LowerFault> {
    match o {
        Some(e) => expr_fault(e, None),
        None => None,
    }
}

pub open spec fn target_fault(t: AssignTarget) -> Option<LowerFault> {
    match t {
        AssignTarget::Name { .. } => None,
        AssignTarget::Attribute { value, .. } => expr_fault(*value, None),
        AssignTarget::Index { value, index, .. } => first_fault(
            expr_fault(*value, None),
            expr_fault(*index, None),
        ),
    }
}

pub open spec fn targets_fault(s: Seq<AssignTarget>, i: int) -> Option<LowerFault>
    decreases s.len() - i,
{
    if 0 <= i < s.len() {
        first_fault(target_fault(s[i]), targets_fault(s, i + 1))
    } else {
        None
    }
}

pub open spec fn param_fault(p: Parameter) -> Option<LowerFault> {
    match p {
        Parameter::Regular { default, .. } => opt_expr_fault(default),
        _ => None,
    }
}

pub open spec fn params_fault(s: Seq<Parameter>, i: int) -> Option<LowerFault>
    decreases s.len() - i,
{
    if 0 <= i < s.len() {
        first_fault(param_fault(s[i]), params_fault(s, i + 1))
    } else {
        None
    }
}

pub open spec fn with_item_fault(w: WithItem) -> Option<LowerFault> {
    first_fault(
        expr_fault(w.context, None),
        match w.target {
            Some(t) => target_fault(t),
            None => None,
        },
    )
}

pub open spec fn with_items_fault(s: Seq<WithItem>, i: int) -> Option<LowerFault>
    decreases s.len() - i,
{
    if 0 <= i < s.len() {
        first_fault(with_item_fault(s[i]), with_items_fault(s, i + 1))
    } else {
        None
    }
}

pub open spec fn stmt_fault(s: Stmt) -> Option<LowerFault>
    decreases s, 0int,
{
    match s {
        Stmt::If { cond, body, elifs, else_body, .. } => first_fault(
            expr_fault(cond, None),
            first_fault(
                block_fault(body@, 0),
                first_fault(elifs_fault(elifs@, 0), opt_block_fault(else_body)),
            ),
        ),
        Stmt::While { cond, body, else_body, .. } => first_fault(
            expr_fault(cond, None),
            first_fault(block_fault(body@, 0), opt_block_fault(else_body)),
        ),
        Stmt::For { target, iter, body, else_body, .. } => first_fault(
            target_fault(target),
            first_fault(
                expr_fault(iter, None),
                first_fault(block_fault(body@, 0), opt_block_fault(else_body)),
            ),
        ),
        Stmt::Def { params, body, .. } => first_fault(
            params_fault(params@, 0),
            block_fault(body@, 0),
        ),
        Stmt::Class { body, .. } => block_fault(body@, 0),
        Stmt::Try { body, handlers, else_body, finally_body, .. } => first_fault(
            block_fault(body@, 0),
            first_fault(
                handlers_fault(handlers@, 0),
                first_fault(opt_block_fault(else_body), opt_block_fault(finally_body)),
            ),
        ),
        Stmt::With { items, body, .. } => first_fault(
            with_items_fault(items@, 0),
            block_fault(body@, 0),
        ),
        Stmt::Return { value, .. } => opt_expr_fault(value),
        Stmt::Raise { value, from, .. } => first_fault(opt_expr_fault(value), opt_expr_fault(from)),
        Stmt::Assert { test, message, .. } => first_fault(
            expr_fault(test, None),
            opt_expr_fault(message),
        ),
        Stmt::Delete { targets, .. } => targets_fault(targets@, 0),
        Stmt::Assign { targets, value, .. } => first_fault(
            targets_fault(targets@, 0),
            expr_fault(value, None),
        ),
        Stmt::Expr { value, .. } => expr_fault(value, None),
        _ => None,
    }
}

pub open spec fn block_fault(s: Seq<Stmt>, i: int) -> Option<LowerFault>
    decreases s, s.len() - i,
{
    if 0 <= i < s.len() {
        first_fault(stmt_fault(s[i]), block_fault(s, i + 1))
    } else {
        None
    }
}

pub open spec fn elifs_fault(s: Seq<(Expr, Vec<Stmt>)>, i: int) -> Option<LowerFault>
    decreases s, s.len() - i,
{
    if 0 <= i < s.len() {
        first_fault(
            first_fault(expr_fault(s[i].0, None), block_fault(s[i].1@, 0)),
            elifs_fault(s, i + 1),
        )
    } else {
        None
    }
}

/// The first fault among the condition and block of an `if` statement and
/// those of its `elif`s.
pub open spec fn if_branches_fault(s: Stmt) -> Option<LowerFault> {
    match s {
        Stmt::If { cond, body, elifs, .. } => first_fault(
            expr_fault(cond, None),
            first_fault(block_fault(body@, 0), elifs_fault(elifs@, 0)),
        ),
        _ => None,
    }
}

pub open spec fn opt_block_fault(o: Option<Vec<Stmt>>) -> Option<LowerFault>
    decreases o, 0int,
{
    match o {
        Some(b) => block_fault(b@, 0),
        None => None,
    }
}

pub open spec fn handler_fault(h: ExceptHandler) -> Option<LowerFault>
    decreases h, 0int,
{
    first_fault(opt_expr_fault(h.exception_type), block_fault(h.body@, 0))
}

pub open spec fn handlers_fault(s: Seq<ExceptHandler>, i: int) -> Option<LowerFault>
    decreases s, s.len() - i,
{
    if 0 <= i < s.len() {
        first_fault(handler_fault(s[i]), handlers_fault(s, i + 1))
    } else {
        None
    }
}

pub open spec fn lower_opt_expr_spec(o: Option<Expr>) -> Option<SpecPyExpr> {
    match o {
        Some(e) => Some(lower_expr_spec(e, None)),
        None => None,
    }
}

pub open spec fn lower_target_spec(t: AssignTarget) -> SpecPyExpr {
    match t {
        AssignTarget::Name { name, span } => SpecPyExpr::Name { id: name@, span },
        AssignTarget::Attribute { value, attr, span } => SpecPyExpr::Attribute {
            value: Box::new(lower_expr_spec(*value, None)),
            attr: attr@,
            span,
        },
        AssignTarget::Index { value, index, span } => SpecPyExpr::Index {
            value: Box::new(lower_expr_spec(*value, None)),
            index: Box::new(lower_expr_spec(*index, None)),
            span,
        },
    }
}

pub open spec fn lower_param_spec(p: Parameter) -> SpecPyParameter {
    match p {
        Parameter::Regular { name, default, span } => SpecPyParameter::Regular {
            name: name@,
            default: lower_opt_expr_spec(default),
            span,
        },
        Parameter::VarArgs { name, span } => SpecPyParameter::VarArgs { name: name@, span },
        Parameter::KwArgs { name, span } => SpecPyParameter::KwArgs { name: name@, span },
    }
}

pub open spec fn lower_with_item_spec(w: WithItem) -> SpecPyWithItem {
    SpecPyWithItem {
        context: lower_expr_spec(w.context, None),
        target: match w.target {
            Some(t) => Some(lower_target_spec(t)),
            None => None,
        },
        span: w.span,
    }
}

pub open spec fn import_name_spec(item: ImportItem) -> SpecPyImportName {
    SpecPyImportName {
        name: strings_view(item.name),
        asname: crate::pyast::opt_string_view(item.alias),
        span: item.span,
    }
}

pub open spec fn is_future_module(module: Vec<String>) -> bool {
    module.len() == 1 && module[0]@ == "__future__"@
}

pub open spec fn is_braces_item(item: ImportItem) -> bool {
    item.name.len() == 1 && item.name[0]@ == "braces"@
}

/// The import items other than `braces`, in order.
pub open spec fn without_braces(s: Seq<ImportItem>) -> Seq<ImportItem>
    decreases s.len(),
{
    if s.len() == 0 {
        Seq::empty()
    } else if is_braces_item(s.last()) {
        without_braces(s.drop_last())
    } else {
        without_braces(s.drop_last()).push(s.last())
    }
}

/// The span of a Python expression or statement.
pub open spec fn spec_expr_span(e: SpecPyExpr) -> SourceSpan {
    match e {
        SpecPyExpr::Name { span, .. } => span,
        SpecPyExpr::Number { span, .. } => span,
        SpecPyExpr::String { span, .. } => span,
        SpecPyExpr::FString { span, .. } => span,
        SpecPyExpr::Bool { span, .. } => span,
        SpecPyExpr::NoneLiteral { span } => span,
        SpecPyExpr::Unary { span, .. } => span,
        SpecPyExpr::Binary { span, .. } => span,
        SpecPyExpr::Compare { span, .. } => span,
        SpecPyExpr::IfExpr { span, .. } => span,
        SpecPyExpr::Lambda { span, .. } => span,
        SpecPyExpr::Call { span, .. } => span,
        SpecPyExpr::Attribute { span, .. } => span,
        SpecPyExpr::Index { span, .. } => span,
        SpecPyExpr::Paren { span, .. } => span,
        SpecPyExpr::List { span, .. } => span,
        SpecPyExpr::Tuple { span, .. } => span,
        SpecPyExpr::Dict { span, .. } => span,
        SpecPyExpr::SetLiteral { span, .. } => span,
        SpecPyExpr::ListComp { span, .. } => span,
        SpecPyExpr::DictComp { span, .. } => span,
        SpecPyExpr::Slice { span, .. } => span,
    }
}

pub open spec fn spec_stmt_span(s: SpecPyStmt) -> SourceSpan {
    match s {
        SpecPyStmt::If { span, .. } => span,
        SpecPyStmt::While { span, .. } => span,
        SpecPyStmt::For { span, .. } => span,
        SpecPyStmt::FunctionDef { span, .. } => span,
        SpecPyStmt::ClassDef { span, .. } => span,
        SpecPyStmt::Try { span, .. } => span,
        SpecPyStmt::With { span, .. } => span,
        SpecPyStmt::Return { span, .. } => span,
        SpecPyStmt::Raise { span, .. } => span,
        SpecPyStmt::Assert { span, .. } => span,
        SpecPyStmt::Delete { span, .. } => span,
        SpecPyStmt::Break { span } => span,
        SpecPyStmt::Continue { span } => span,
        SpecPyStmt::Pass { span } => span,
        SpecPyStmt::Import { span, .. } => span,
        SpecPyStmt::ImportFrom { span, .. } => span,
        SpecPyStmt::Assign { span, .. } => span,
        SpecPyStmt::Expr { span, .. } => span,
    }
}

/// The span from the first to the last statement of a non-empty block, and
/// `hint` for an empty one.
pub open spec fn block_span_or(body: Seq<SpecPyStmt>, hint: SourceSpan) -> SourceSpan {
    if body.len() > 0 {
        SourceSpan { start: spec_stmt_span(body[0]).start, end: spec_stmt_span(body.last()).end }
    } else {
        hint
    }
}

/// The `if`/`elif`/`else` chain from test `k` on: each `elif` becomes an `if`
/// nested as the sole statement of the previous `else`. A test's span runs
/// from its condition to the end of its last branch.
pub open spec fn if_chain_spec(
    tests: Seq<SpecPyExpr>,
    bodies: Seq<Seq<SpecPyStmt>>,
    orelse: Seq<SpecPyStmt>,
    hint: SourceSpan,
    k: int,
) -> SpecPyStmt
    decreases tests.len() - k,
{
    let start = spec_expr_span(tests[k]).start;
    let base = block_span_or(bodies[k], hint);
    if k + 1 < tests.len() {
        let nested = if_chain_spec(tests, bodies, orelse, hint, k + 1);
        SpecPyStmt::If {
            test: tests[k],
            body: bodies[k],
            orelse: seq![nested],
            span: SourceSpan { start, end: spec_stmt_span(nested).end },
        }
    } else {
        SpecPyStmt::If {
            test: tests[k],
            body: bodies[k],
            orelse,
            span: SourceSpan {
                start,
                end: if orelse.len() > 0 {
                    spec_stmt_span(orelse.last()).end
                } else {
                    base.end
                },
            },
        }
    }
}

/// The lowered conditions of an `if` statement: its own, then each `elif`'s.
pub open spec fn if_tests_spec(s: Stmt) -> Seq<SpecPyExpr> {
    match s {
        Stmt::If { cond, elifs, .. } => seq![lower_expr_spec(cond, None)] + Seq::new(
            elifs.len() as nat,
            |i: int| lower_expr_spec(elifs[i].0, None),
        ),
        _ => Seq::empty(),
    }
}

/// The lowered blocks of an `if` statement: its own, then each `elif`'s.
pub open spec fn if_bodies_spec(s: Stmt) -> Seq<Seq<SpecPyStmt>>
    decreases s, 0int,
{
    match s {
        Stmt::If { body, elifs, .. } => seq![lower_block_spec(body)] + Seq::new(
            elifs.len() as nat,
            |i: int|
                if 0 <= i < elifs.len() {
                    lower_block_spec(elifs[i].1)
                } else {
                    Seq::empty()
                },
        ),
        _ => Seq::empty(),
    }
}

pub open spec fn lower_stmt_spec(s: Stmt) -> SpecPyStmt
    decreases s, 1int,
{
    match s {
        Stmt::If { else_body, span, .. } => if_chain_spec(
            if_tests_spec(s),
            if_bodies_spec(s),
            lower_opt_block_spec(else_body),
            span,
            0,
        ),
        Stmt::While { cond, body, else_body, span } => SpecPyStmt::While {
            test: lower_expr_spec(cond, None),
            body: lower_block_spec(body),
            orelse: lower_opt_block_spec(else_body),
            span,
        },
        Stmt::For { target, iter, body, else_body, span } => SpecPyStmt::For {
            target: lower_target_spec(target),
            iter: lower_expr_spec(iter, None),
            body: lower_block_spec(body),
            orelse: lower_opt_block_spec(else_body),
            span,
        },
        Stmt::Def { name, params, body, span } => SpecPyStmt::FunctionDef {
            name: name@,
            args: Seq::new(params.len() as nat, |i: int| lower_param_spec(params[i])),
            body: lower_block_spec(body),
            span,
        },
        Stmt::Class { name, body, span } => SpecPyStmt::ClassDef {
            name: name@,
            body: lower_block_spec(body),
            span,
        },
        Stmt::Try { body, handlers, else_body, finally_body, span } => SpecPyStmt::Try {
            body: lower_block_spec(body),
            handlers: Seq::new(
                handlers.len() as nat,
                |i: int|
                    if 0 <= i < handlers.len() {
                        lower_handler_spec(handlers[i])
                    } else {
                        SpecPyExceptHandler {
                            exception_type: None,
                            name: None,
                            body: Seq::empty(),
                            span,
                        }
                    },
            ),
            orelse: lower_opt_block_spec(else_body),
            finalbody: lower_opt_block_spec(finally_body),
            span,
        },
        Stmt::With { items, body, span } => SpecPyStmt::With {
            items: Seq::new(items.len() as nat, |i: int| lower_with_item_spec(items[i])),
            body: lower_block_spec(body),
            span,
        },
        Stmt::Return { value, span } => SpecPyStmt::Return { value: lower_opt_expr_spec(value), span },
        Stmt::Raise { value, from, span } => SpecPyStmt::Raise {
            value: lower_opt_expr_spec(value),
            from: lower_opt_expr_spec(from),
            span,
        },
        Stmt::Assert { test, message, span } => SpecPyStmt::Assert {
            test: lower_expr_spec(test, None),
            message: lower_opt_expr_spec(message),
            span,
        },
        Stmt::Delete { targets, span } => SpecPyStmt::Delete {
            targets: Seq::new(targets.len() as nat, |i: int| lower_target_spec(targets[i])),
            span,
        },
        Stmt::Break { span } => SpecPyStmt::Break { span },
        Stmt::Continue { span } => SpecPyStmt::Continue { span },
        Stmt::Pass { span } => SpecPyStmt::Pass { span },
        Stmt::Import { items, span } => SpecPyStmt::Import {
            names: items@.map_values(|item: ImportItem| import_name_spec(item)),
            span,
        },
        Stmt::ImportFrom { module, items, span } => if is_future_module(module) {
            let kept = without_braces(items@);
            if kept.len() == 0 {
                SpecPyStmt::Pass { span }
            } else {
                SpecPyStmt::ImportFrom {
                    module: strings_view(module),
                    names: kept.map_values(|item: ImportItem| import_name_spec(item)),
                    span,
                }
            }
        } else {
            SpecPyStmt::ImportFrom {
                module: strings_view(module),
                names: items@.map_values(|item: ImportItem| import_name_spec(item)),
                span,
            }
        },
        Stmt::Assign { targets, value, span } => SpecPyStmt::Assign {
            targets: Seq::new(targets.len() as nat, |i: int| lower_target_spec(targets[i])),
            value: lower_expr_spec(value, None),
            span,
        },
        Stmt::Expr { value, semicolon_terminated, span } => SpecPyStmt::Expr {
            value: lower_expr_spec(value, None),
            semicolon_terminated,
            span,
        },
    }
}

pub open spec fn lower_block_spec(v: Vec<Stmt>) -> Seq<SpecPyStmt>
    decreases v, 1int,
{
    Seq::new(
        v.len() as nat,
        |i: int|
            if 0 <= i < v.len() {
                lower_stmt_spec(v[i])
            } else {
                SpecPyStmt::Pass { span: dummy_span() }
            },
    )
}

pub open spec fn lower_opt_block_spec(o: Option<Vec<Stmt>>) -> Seq<SpecPyStmt>
    decreases o, 1int,
{
    match o {
        Some(b) => lower_block_spec(b),
        None => Seq::empty(),
    }
}

pub open spec fn lower_handler_spec(h: ExceptHandler) -> SpecPyExceptHandler
    decreases h, 0int,
{
    SpecPyExceptHandler {
        exception_type: lower_opt_expr_spec(h.exception_type),
        name: crate::pyast::opt_string_view(h.name),
        body: lower_block_spec(h.body),
        span: h.span,
    }
}


/// `py` is the block `src` lowered statement for statement: as many
/// statements, the `i`-th the lowering of the `i`-th.
pub open spec fn lowered_each(py: Seq<SpecPyStmt>, src: Vec<Stmt>) -> bool {
    &&& py.len() == src.len()
    &&& forall|i: int| 0 <= i < src.len() ==> #[trigger] py[i] == lower_stmt_spec(src[i])
}

/// `py` is the optional block `src` lowered: empty when there is none.
pub open spec fn lowered_opt(py: Seq<SpecPyStmt>, src: Option<Vec<Stmt>>) -> bool {
    match src {
        Some(b) => lowered_each(py, b),
        None => py.len() == 0,
    }
}

/// A `while` loop lowers to a Python `while` on the lowered condition, whose
/// body and `else` block are the source's lowered statement for statement,
/// in order, with nothing left out or added.
pub proof fn lemma_while_keeps_its_blocks(s: Stmt)
    ensures
        s matches Stmt::While { cond, body, else_body, .. } ==> {
            &&& lower_stmt_spec(s) is While
            &&& lower_stmt_spec(s)->While_test == lower_expr_spec(cond, None)
            &&& lowered_each(lower_stmt_spec(s)->While_body, body)
            &&& lowered_opt(lower_stmt_spec(s)->While_orelse, else_body)
        },
{
    if let Stmt::While { cond, body, else_body, span } = s {
        assert(lowered_each(lower_block_spec(body), body));
        assert(lowered_opt(lower_opt_block_spec(else_body), else_body));
    }
}

/// A `for` loop lowers to a Python `for` over the lowered iterable into the
/// lowered target, whose body and `else` block are the source's lowered
/// statement for statement.
pub proof fn lemma_for_keeps_its_blocks(s: Stmt)
    ensures
        s matches Stmt::For { target, iter, body, else_body, .. } ==> {
            &&& lower_stmt_spec(s) is For
            &&& lower_stmt_spec(s)->For_target == lower_target_spec(target)
            &&& lower_stmt_spec(s)->For_iter == lower_expr_spec(iter, None)
            &&& lowered_each(lower_stmt_spec(s)->For_body, body)
            &&& lowered_opt(lower_stmt_spec(s)->For_orelse, else_body)
        },
{
    if let Stmt::For { target, iter, body, else_body, span } = s {
        assert(lowered_each(lower_block_spec(body), body));
        assert(lowered_opt(lower_opt_block_spec(else_body), else_body));
    }
}

/// An `if` lowers to a Python `if` on the lowered condition whose body is the
/// source's lowered statement for statement; without `elif`, its `else` is
/// the source's `else` lowered; with one, its `else` holds a single nested
/// `if` for the first `elif`.
#[verifier::rlimit(40)]
pub proof fn lemma_if_keeps_its_blocks(s: Stmt)
    ensures
        s matches Stmt::If { cond, body, elifs, else_body, .. } ==> {
            &&& lower_stmt_spec(s) is If
            &&& lower_stmt_spec(s)->If_test == lower_expr_spec(cond, None)
            &&& lowered_each(lower_stmt_spec(s)->If_body, body)
            &&& elifs.len() == 0 ==> lowered_opt(lower_stmt_spec(s)->If_orelse, else_body)
            &&& elifs.len() > 0 ==> {
                &&& lower_stmt_spec(s)->If_orelse.len() == 1
                &&& lower_stmt_spec(s)->If_orelse[0] is If
                &&& lower_stmt_spec(s)->If_orelse[0]->If_test == lower_expr_spec(elifs[0].0, None)
                &&& lowered_each(lower_stmt_spec(s)->If_orelse[0]->If_body, elifs[0].1)
            }
        },
{
    if let Stmt::If { cond, body, elifs, else_body, span } = s {
        let tests = if_tests_spec(s);
        let bodies = if_bodies_spec(s);
        let orelse = lower_opt_block_spec(else_body);
        assert(tests[0] == lower_expr_spec(cond, None));
        assert(bodies[0] == lower_block_spec(body));
        assert(lowered_each(lower_block_spec(body), body));
        let top = if_chain_spec(tests, bodies, orelse, span, 0);
        assert(lower_stmt_spec(s) == top);
        if elifs.len() > 0 {
            assert(tests.len() == elifs.len() + 1);
            assert(tests[1] == lower_expr_spec(elifs[0].0, None));
            assert(bodies[1] == lower_block_spec(elifs[0].1));
            assert(lowered_each(lower_block_spec(elifs[0].1), elifs[0].1));
            let nested = if_chain_spec(tests, bodies, orelse, span, 1);
            assert(top->If_orelse == seq![nested]);
            assert(nested->If_test == tests[1]);
            assert(nested->If_body == bodies[1]);
        } else {
            assert(tests.len() == 1);
            assert(top->If_orelse == orelse);
            assert(lowered_opt(orelse, else_body));
        }
    }
}

/// A function or class definition keeps its name, and its body is the
/// source's lowered statement for statement; a function keeps its number of
/// parameters.
pub proof fn lemma_definitions_keep_their_bodies(s: Stmt)
    ensures
        s matches Stmt::Def { name, params, body, .. } ==> {
            &&& lower_stmt_spec(s) is FunctionDef
            &&& lower_stmt_spec(s)->FunctionDef_name == name@
            &&& lower_stmt_spec(s)->FunctionDef_args.len() == params.len()
            &&& lowered_each(lower_stmt_spec(s)->FunctionDef_body, body)
        },
        s matches Stmt::Class { name, body, .. } ==> {
            &&& lower_stmt_spec(s) is ClassDef
            &&& lower_stmt_spec(s)->ClassDef_name == name@
            &&& lowered_each(lower_stmt_spec(s)->ClassDef_body, body)
        },
{
    match s {
        Stmt::Def { body, .. } => assert(lowered_each(lower_block_spec(body), body)),
        Stmt::Class { body, .. } => assert(lowered_each(lower_block_spec(body), body)),
        _ => {},
    }
}

/// A `try` lowers to a Python `try` whose body, `else` and `finally` blocks
/// and each handler's body are the source's lowered statement for statement,
/// with one handler for each, catching the lowered exception type.
pub proof fn lemma_try_keeps_its_blocks(s: Stmt)
    ensures
        s matches Stmt::Try { body, handlers, else_body, finally_body, .. } ==> {
            &&& lower_stmt_spec(s) is Try
            &&& lowered_each(lower_stmt_spec(s)->Try_body, body)
            &&& lower_stmt_spec(s)->Try_handlers.len() == handlers.len()
            &&& forall|i: int| 0 <= i < handlers.len() ==> {
                &&& lowered_each(#[trigger] lower_stmt_spec(s)->Try_handlers[i].body, handlers[i].body)
                &&& lower_stmt_spec(s)->Try_handlers[i].exception_type == lower_opt_expr_spec(
                    handlers[i].exception_type,
                )
            }
            &&& lowered_opt(lower_stmt_spec(s)->Try_orelse, else_body)
            &&& lowered_opt(lower_stmt_spec(s)->Try_finalbody, finally_body)
        },
{
    if let Stmt::Try { body, handlers, else_body, finally_body, span } = s {
        assert(lowered_each(lower_block_spec(body), body));
        assert(lowered_opt(lower_opt_block_spec(else_body), else_body));
        assert(lowered_opt(lower_opt_block_spec(finally_body), finally_body));
        assert forall|i: int| 0 <= i < handlers.len() implies lowered_each(
            #[trigger] lower_stmt_spec(s)->Try_handlers[i].body,
            handlers[i].body,
        ) by {
            assert(lower_stmt_spec(s)->Try_handlers[i] == lower_handler_spec(handlers[i]));
            assert(lowered_each(lower_block_spec(handlers[i].body), handlers[i].body));
        }
    }
}

/// A `with` lowers to a Python `with` with one item for each, on the lowered
/// context, and a body that is the source's lowered statement for statement.
pub proof fn lemma_with_keeps_its_blocks(s: Stmt)
    ensures
        s matches Stmt::With { items, body, .. } ==> {
            &&& lower_stmt_spec(s) is With
            &&& lower_stmt_spec(s)->With_items.len() == items.len()
            &&& forall|i: int| 0 <= i < items.len() ==> (#[trigger] lower_stmt_spec(s)->With_items[i]).context
                == lower_expr_spec(items[i].context, None)
            &&& lowered_each(lower_stmt_spec(s)->With_body, body)
        },
{
    if let Stmt::With { items, body, span } = s {
        assert(lowered_each(lower_block_spec(body), body));
    }
}

/// An assignment, an expression statement and a `return` keep their kind and
/// lower their targets and values as expressions.
pub proof fn lemma_simple_statements_keep_their_parts(s: Stmt)
    ensures
        s matches Stmt::Assign { targets, value, .. } ==> {
            &&& lower_stmt_spec(s) is Assign
            &&& lower_stmt_spec(s)->Assign_targets.len() == targets.len()
            &&& forall|i: int| 0 <= i < targets.len() ==> #[trigger] lower_stmt_spec(s)->Assign_targets[i]
                == lower_target_spec(targets[i])
            &&& lower_stmt_spec(s)->Assign_value == lower_expr_spec(value, None)
        },
        s matches Stmt::Expr { value, .. } ==> {
            &&& lower_stmt_spec(s) is Expr
            &&& lower_stmt_spec(s)->Expr_value == lower_expr_spec(value, None)
        },
        s matches Stmt::Return { value, .. } ==> {
            &&& lower_stmt_spec(s) is Return
            &&& lower_stmt_spec(s)->Return_value == lower_opt_expr_spec(value)
        },
{
}

} // verus!
