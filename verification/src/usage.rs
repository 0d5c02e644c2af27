//! Which runtime helpers a Python module needs: a helper is needed exactly
//! when the module calls it by name somewhere, at any depth.
use vstd::prelude::*;
use crate::lower::{
    SNAIL_JSON_FUNCTION, SNAIL_REGEX_COMPILE, SNAIL_REGEX_SEARCH, SNAIL_STRUCTURED_ACCESSOR_CLASS,
    SNAIL_SUBPROCESS_CAPTURE_CLASS, SNAIL_SUBPROCESS_STATUS_CLASS, SNAIL_TRY_HELPER,
};
use crate::pyast::{
    PyArgument, PyExceptHandler, PyExpr, PyFStringPart, PyModule, PyStmt, PyWithItem,
};
use crate::text::str_eq;

verus! {

/// The runtime helpers that generated code may call.
#[derive(Debug, Clone, Copy, PartialEq, Eq)]
pub enum Helper {
    /// The compact-try function.
    Try,
    /// The regex search and compile functions.
    Regex,
    /// The subprocess capture and status classes.
    Subprocess,
    /// The structured-accessor class and the `js` function.
    Structured,
}

/// Whether `name` is the name of one of the functions or classes of `h`.
pub open spec fn helper_name(name: Seq<char>, h: Helper) -> bool {
    match h {
        Helper::Try => name == SNAIL_TRY_HELPER@,
        Helper::Regex => name == SNAIL_REGEX_SEARCH@ || name == SNAIL_REGEX_COMPILE@,
        Helper::Subprocess => name == SNAIL_SUBPROCESS_CAPTURE_CLASS@ || name
            == SNAIL_SUBPROCESS_STATUS_CLASS@,
        Helper::Structured => name == SNAIL_STRUCTURED_ACCESSOR_CLASS@ || name == SNAIL_JSON_FUNCTION@,
    }
}

/// Whether the callee of a call is `h` named directly.
pub open spec fn calls_helper(func: PyExpr, h: Helper) -> bool {
    match func {
        PyExpr::Name { id, .. } => helper_name(id@, h),
        _ => false,
    }
}

pub open spec fn expr_uses(e: PyExpr, h: Helper) -> bool
    decreases e, 0int,
{
    match e {
        PyExpr::Name { .. } => false,
        PyExpr::Number { .. } => false,
        PyExpr::String { .. } => false,
        PyExpr::Bool { .. } => false,
        PyExpr::NoneLiteral { .. } => false,
        PyExpr::FString { parts, .. } => fparts_use(parts@, 0, h),
        PyExpr::Unary { operand, .. } => expr_uses(*operand, h),
        PyExpr::Binary { left, right, .. } => expr_uses(*left, h) || expr_uses(*right, h),
        PyExpr::Compare { left, comparators, .. } => expr_uses(*left, h) || exprs_use(
            comparators@,
            0,
            h,
        ),
        PyExpr::IfExpr { test, body, orelse, .. } => expr_uses(*test, h) || expr_uses(*body, h)
            || expr_uses(*orelse, h),
        PyExpr::Lambda { body, .. } => expr_uses(*body, h),
        PyExpr::Call { func, args, .. } => calls_helper(*func, h) || expr_uses(*func, h)
            || args_use(args@, 0, h),
        PyExpr::Attribute { value, .. } => expr_uses(*value, h),
        PyExpr::Index { value, index, .. } => expr_uses(*value, h) || expr_uses(*index, h),
        PyExpr::Paren { expr, .. } => expr_uses(*expr, h),
        PyExpr::List { elements, .. } => exprs_use(elements@, 0, h),
        PyExpr::Tuple { elements, .. } => exprs_use(elements@, 0, h),
        PyExpr::Dict { entries, .. } => entries_use(entries@, 0, h),
        PyExpr::SetLiteral { elements, .. } => exprs_use(elements@, 0, h),
        PyExpr::ListComp { element, iter, ifs, .. } => expr_uses(*element, h) || expr_uses(*iter, h)
            || exprs_use(ifs@, 0, h),
        PyExpr::DictComp { key, value, iter, ifs, .. } => expr_uses(*key, h) || expr_uses(*value, h)
            || expr_uses(*iter, h) || exprs_use(ifs@, 0, h),
        PyExpr::Slice { start, end, .. } => (match start {
            Some(b) => expr_uses(*b, h),
            None => false,
        }) || (match end {
            Some(b) => expr_uses(*b, h),
            None => false,
        }),
    }
}

/// Whether one of the expressions from the `i`-th on uses `h`.
pub open spec fn exprs_use(s: Seq<PyExpr>, i: int, h: Helper) -> bool
    decreases s, s.len() - i,
{
    if 0 <= i < s.len() {
        expr_uses(s[i], h) || exprs_use(s, i + 1, h)
    } else {
        false
    }
}

pub open spec fn entries_use(s: Seq<(PyExpr, PyExpr)>, i: int, h: Helper) -> bool
    decreases s, s.len() - i,
{
    if 0 <= i < s.len() {
        expr_uses(s[i].0, h) || expr_uses(s[i].1, h) || entries_use(s, i + 1, h)
    } else {
        false
    }
}

pub open spec fn fparts_use(s: Seq<PyFStringPart>, i: int, h: Helper) -> bool
    decreases s, s.len() - i,
{
    if 0 <= i < s.len() {
        (match s[i] {
            PyFStringPart::Text(_) => false,
            PyFStringPart::Expr(e) => expr_uses(e, h),
        }) || fparts_use(s, i + 1, h)
    } else {
        false
    }
}

pub open spec fn arg_uses(a: PyArgument, h: Helper) -> bool
    decreases a, 0int,
{
    match a {
        PyArgument::Positional { value, .. } => expr_uses(value, h),
        PyArgument::Keyword { value, .. } => expr_uses(value, h),
        PyArgument::Star { value, .. } => expr_uses(value, h),
        PyArgument::KwStar { value, .. } => expr_uses(value, h),
    }
}

pub open spec fn args_use(s: Seq<PyArgument>, i: int, h: Helper) -> bool
    decreases s, s.len() - i,
{
    if 0 <= i < s.len() {
        arg_uses(s[i], h) || args_use(s, i + 1, h)
    } else {
        false
    }
}

pub open spec fn opt_expr_uses(o: Option<PyExpr>, h: Helper) -> bool {
    match o {
        Some(e) => expr_uses(e, h),
        None => false,
    }
}

pub open spec fn with_item_uses(w: PyWithItem, h: Helper) -> bool {
    expr_uses(w.context, h) || opt_expr_uses(w.target, h)
}

pub open spec fn with_items_use(s: Seq<PyWithItem>, i: int, h: Helper) -> bool
    decreases s.len() - i,
{
    if 0 <= i < s.len() {
        with_item_uses(s[i], h) || with_items_use(s, i + 1, h)
    } else {
        false
    }
}

pub open spec fn stmt_uses(s: PyStmt, h: Helper) -> bool
    decreases s, 0int,
{
    match s {
        PyStmt::If { test, body, orelse, .. } => expr_uses(test, h) || stmts_use(body@, 0, h)
            || stmts_use(orelse@, 0, h),
        PyStmt::While { test, body, orelse, .. } => expr_uses(test, h) || stmts_use(body@, 0, h)
            || stmts_use(orelse@, 0, h),
        PyStmt::For { target, iter, body, orelse, .. } => expr_uses(target, h) || expr_uses(iter, h)
            || stmts_use(body@, 0, h) || stmts_use(orelse@, 0, h),
        PyStmt::FunctionDef { body, .. } => stmts_use(body@, 0, h),
        PyStmt::ClassDef { body, .. } => stmts_use(body@, 0, h),
        PyStmt::Try { body, handlers, orelse, finalbody, .. } => stmts_use(body@, 0, h)
            || handlers_use(handlers@, 0, h) || stmts_use(orelse@, 0, h) || stmts_use(
            finalbody@,
            0,
            h,
        ),
        PyStmt::With { items, body, .. } => with_items_use(items@, 0, h) || stmts_use(body@, 0, h),
        PyStmt::Return { value, .. } => opt_expr_uses(value, h),
        PyStmt::Raise { value, from, .. } => opt_expr_uses(value, h) || opt_expr_uses(from, h),
        PyStmt::Assert { test, message, .. } => expr_uses(test, h) || opt_expr_uses(message, h),
        PyStmt::Delete { targets, .. } => exprs_use(targets@, 0, h),
        PyStmt::Break { .. } => false,
        PyStmt::Continue { .. } => false,
        PyStmt::Pass { .. } => false,
        PyStmt::Import { .. } => false,
        PyStmt::ImportFrom { .. } => false,
        PyStmt::Assign { targets, value, .. } => exprs_use(targets@, 0, h) || expr_uses(value, h),
        PyStmt::Expr { value, .. } => expr_uses(value, h),
    }
}

/// Whether one of the statements from the `i`-th on uses `h`.
pub open spec fn stmts_use(s: Seq<PyStmt>, i: int, h: Helper) -> bool
    decreases s, s.len() - i,
{
    if 0 <= i < s.len() {
        stmt_uses(s[i], h) || stmts_use(s, i + 1, h)
    } else {
        false
    }
}

pub open spec fn handler_uses(x: PyExceptHandler, h: Helper) -> bool
    decreases x, 0int,
{
    opt_expr_uses(x.exception_type, h) || stmts_use(x.body@, 0, h)
}

pub open spec fn handlers_use(s: Seq<PyExceptHandler>, i: int, h: Helper) -> bool
    decreases s, s.len() - i,
{
    if 0 <= i < s.len() {
        handler_uses(s[i], h) || handlers_use(s, i + 1, h)
    } else {
        false
    }
}

/// Whether a module calls `h` anywhere.
pub open spec fn module_uses(m: PyModule, h: Helper) -> bool {
    stmts_use(m.body@, 0, h)
}

proof fn lemma_stmts_use_from(s: Seq<PyStmt>, k: int, h: Helper)
    requires
        0 <= k <= s.len(),
    ensures
        stmts_use(s, k, h) <==> exists|i: int| k <= i < s.len() && stmt_uses(#[trigger] s[i], h),
    decreases s.len() - k,
{
    if k < s.len() {
        lemma_stmts_use_from(s, k + 1, h);
        if stmt_uses(s[k], h) {
            assert(k <= k < s.len() && stmt_uses(s[k], h));
        }
    }
}

/// A block calls a helper exactly when one of its statements does.
pub proof fn lemma_block_uses_iff_some_stmt(s: Seq<PyStmt>, h: Helper)
    ensures
        stmts_use(s, 0, h) <==> exists|i: int| 0 <= i < s.len() && stmt_uses(#[trigger] s[i], h),
{
    lemma_stmts_use_from(s, 0, h);
}

/// A module needs a helper exactly when one of its top-level statements
/// calls it.
pub proof fn lemma_module_uses_iff_some_stmt(m: PyModule, h: Helper)
    ensures
        module_uses(m, h) <==> exists|i: int| 0 <= i < m.body.len() && stmt_uses(#[trigger] m.body@[i], h),
{
    lemma_stmts_use_from(m.body@, 0, h);
}

// ---------------------------------------------------------------------------
// The checks.

fn calls_helper_exec(func: &PyExpr, h: Helper) -> (r: bool)
    ensures
        r == calls_helper(*func, h),
{
    match func {
        PyExpr::Name { id, .. } => match h {
            Helper::Try => str_eq(id.as_str(), SNAIL_TRY_HELPER),
            Helper::Regex => str_eq(id.as_str(), SNAIL_REGEX_SEARCH) || str_eq(
                id.as_str(),
                SNAIL_REGEX_COMPILE,
            ),
            Helper::Subprocess => str_eq(id.as_str(), SNAIL_SUBPROCESS_CAPTURE_CLASS) || str_eq(
                id.as_str(),
                SNAIL_SUBPROCESS_STATUS_CLASS,
            ),
            Helper::Structured => str_eq(id.as_str(), SNAIL_STRUCTURED_ACCESSOR_CLASS) || str_eq(
                id.as_str(),
                SNAIL_JSON_FUNCTION,
            ),
        },
        _ => false,
    }
}

fn opt_box_uses(o: &Option<Box<PyExpr>>, h: Helper) -> (r: bool)
    ensures
        r == (match *o {
            Some(b) => expr_uses(*b, h),
            None => false,
        }),
    decreases o, 1int,
{
    match o {
        Some(b) => expr_uses_helper(b, h),
        None => false,
    }
}

/// Whether an expression calls `h` anywhere.
pub fn expr_uses_helper(e: &PyExpr, h: Helper) -> (r: bool)
    ensures
        r == expr_uses(*e, h),
    decreases e, 0int,
{
    match e {
        PyExpr::Name { .. } => false,
        PyExpr::Number { .. } => false,
        PyExpr::String { .. } => false,
        PyExpr::Bool { .. } => false,
        PyExpr::NoneLiteral { .. } => false,
        PyExpr::FString { parts, .. } => fparts_use_helper(parts, h),
        PyExpr::Unary { operand, .. } => expr_uses_helper(operand, h),
        PyExpr::Binary { left, right, .. } => expr_uses_helper(left, h) || expr_uses_helper(right, h),
        PyExpr::Compare { left, comparators, .. } => expr_uses_helper(left, h) || exprs_use_helper(
            comparators,
            h,
        ),
        PyExpr::IfExpr { test, body, orelse, .. } => expr_uses_helper(test, h) || expr_uses_helper(
            body,
            h,
        ) || expr_uses_helper(orelse, h),
        PyExpr::Lambda { body, .. } => expr_uses_helper(body, h),
        PyExpr::Call { func, args, .. } => calls_helper_exec(func, h) || expr_uses_helper(func, h)
            || args_use_helper(args, h),
        PyExpr::Attribute { value, .. } => expr_uses_helper(value, h),
        PyExpr::Index { value, index, .. } => expr_uses_helper(value, h) || expr_uses_helper(index, h),
        PyExpr::Paren { expr, .. } => expr_uses_helper(expr, h),
        PyExpr::List { elements, .. } => exprs_use_helper(elements, h),
        PyExpr::Tuple { elements, .. } => exprs_use_helper(elements, h),
        PyExpr::Dict { entries, .. } => entries_use_helper(entries, h),
        PyExpr::SetLiteral { elements, .. } => exprs_use_helper(elements, h),
        PyExpr::ListComp { element, iter, ifs, .. } => expr_uses_helper(element, h)
            || expr_uses_helper(iter, h) || exprs_use_helper(ifs, h),
        PyExpr::DictComp { key, value, iter, ifs, .. } => expr_uses_helper(key, h)
            || expr_uses_helper(value, h) || expr_uses_helper(iter, h) || exprs_use_helper(ifs, h),
        PyExpr::Slice { start, end, .. } => opt_box_uses(start, h) || opt_box_uses(end, h),
    }
}

fn exprs_use_helper(v: &Vec<PyExpr>, h: Helper) -> (r: bool)
    ensures
        r == exprs_use(v@, 0, h),
    decreases v, 1int,
{
    let mut i: usize = 0;
    while i < v.len()
        invariant
            i <= v.len(),
            exprs_use(v@, 0, h) == exprs_use(v@, i as int, h),
        decreases v.len() - i,
    {
        proof {
            assert(decreases_to!(*v => v[i as int]));
        }
        if expr_uses_helper(&v[i], h) {
            return true;
        }
        i += 1;
    }
    false
}

fn entries_use_helper(v: &Vec<(PyExpr, PyExpr)>, h: Helper) -> (r: bool)
    ensures
        r == entries_use(v@, 0, h),
    decreases v, 1int,
{
    let mut i: usize = 0;
    while i < v.len()
        invariant
            i <= v.len(),
            entries_use(v@, 0, h) == entries_use(v@, i as int, h),
        decreases v.len() - i,
    {
        proof {
            assert(decreases_to!(*v => v[i as int]));
            assert(decreases_to!(v[i as int] => v[i as int].0));
            assert(decreases_to!(v[i as int] => v[i as int].1));
        }
        if expr_uses_helper(&v[i].0, h) || expr_uses_helper(&v[i].1, h) {
            return true;
        }
        i += 1;
    }
    false
}

fn fparts_use_helper(v: &Vec<PyFStringPart>, h: Helper) -> (r: bool)
    ensures
        r == fparts_use(v@, 0, h),
    decreases v, 1int,
{
    let mut i: usize = 0;
    while i < v.len()
        invariant
            i <= v.len(),
            fparts_use(v@, 0, h) == fparts_use(v@, i as int, h),
        decreases v.len() - i,
    {
        proof {
            assert(decreases_to!(*v => v[i as int]));
        }
        let found = match &v[i] {
            PyFStringPart::Text(_) => false,
            PyFStringPart::Expr(e) => expr_uses_helper(e, h),
        };
        if found {
            return true;
        }
        i += 1;
    }
    false
}

fn arg_uses_helper(a: &PyArgument, h: Helper) -> (r: bool)
    ensures
        r == arg_uses(*a, h),
    decreases a, 0int,
{
    match a {
        PyArgument::Positional { value, .. } => expr_uses_helper(value, h),
        PyArgument::Keyword { value, .. } => expr_uses_helper(value, h),
        PyArgument::Star { value, .. } => expr_uses_helper(value, h),
        PyArgument::KwStar { value, .. } => expr_uses_helper(value, h),
    }
}

fn args_use_helper(v: &Vec<PyArgument>, h: Helper) -> (r: bool)
    ensures
        r == args_use(v@, 0, h),
    decreases v, 1int,
{
    let mut i: usize = 0;
    while i < v.len()
        invariant
            i <= v.len(),
            args_use(v@, 0, h) == args_use(v@, i as int, h),
        decreases v.len() - i,
    {
        proof {
            assert(decreases_to!(*v => v[i as int]));
        }
        if arg_uses_helper(&v[i], h) {
            return true;
        }
        i += 1;
    }
    false
}

fn opt_expr_uses_helper(o: &Option<PyExpr>, h: Helper) -> (r: bool)
    ensures
        r == opt_expr_uses(*o, h),
{
    match o {
        Some(e) => expr_uses_helper(e, h),
        None => false,
    }
}

fn with_items_use_helper(v: &Vec<PyWithItem>, h: Helper) -> (r: bool)
    ensures
        r == with_items_use(v@, 0, h),
{
    let mut i: usize = 0;
    while i < v.len()
        invariant
            i <= v.len(),
            with_items_use(v@, 0, h) == with_items_use(v@, i as int, h),
        decreases v.len() - i,
    {
        if expr_uses_helper(&v[i].context, h) || opt_expr_uses_helper(&v[i].target, h) {
            return true;
        }
        i += 1;
    }
    false
}

/// Whether a statement calls `h` anywhere.
pub fn stmt_uses_helper(s: &PyStmt, h: Helper) -> (r: bool)
    ensures
        r == stmt_uses(*s, h),
    decreases s, 0int,
{
    match s {
        PyStmt::If { test, body, orelse, .. } => expr_uses_helper(test, h) || stmts_use_helper(body, h)
            || stmts_use_helper(orelse, h),
        PyStmt::While { test, body, orelse, .. } => expr_uses_helper(test, h) || stmts_use_helper(
            body,
            h,
        ) || stmts_use_helper(orelse, h),
        PyStmt::For { target, iter, body, orelse, .. } => expr_uses_helper(target, h)
            || expr_uses_helper(iter, h) || stmts_use_helper(body, h) || stmts_use_helper(orelse, h),
        PyStmt::FunctionDef { body, .. } => stmts_use_helper(body, h),
        PyStmt::ClassDef { body, .. } => stmts_use_helper(body, h),
        PyStmt::Try { body, handlers, orelse, finalbody, .. } => stmts_use_helper(body, h)
            || handlers_use_helper(handlers, h) || stmts_use_helper(orelse, h) || stmts_use_helper(
            finalbody,
            h,
        ),
        PyStmt::With { items, body, .. } => with_items_use_helper(items, h) || stmts_use_helper(
            body,
            h,
        ),
        PyStmt::Return { value, .. } => opt_expr_uses_helper(value, h),
        PyStmt::Raise { value, from, .. } => opt_expr_uses_helper(value, h) || opt_expr_uses_helper(
            from,
            h,
        ),
        PyStmt::Assert { test, message, .. } => expr_uses_helper(test, h) || opt_expr_uses_helper(
            message,
            h,
        ),
        PyStmt::Delete { targets, .. } => exprs_use_helper(targets, h),
        PyStmt::Break { .. } => false,
        PyStmt::Continue { .. } => false,
        PyStmt::Pass { .. } => false,
        PyStmt::Import { .. } => false,
        PyStmt::ImportFrom { .. } => false,
        PyStmt::Assign { targets, value, .. } => exprs_use_helper(targets, h) || expr_uses_helper(
            value,
            h,
        ),
        PyStmt::Expr { value, .. } => expr_uses_helper(value, h),
    }
}

/// Whether a block calls `h` anywhere.
pub fn stmts_use_helper(v: &Vec<PyStmt>, h: Helper) -> (r: bool)
    ensures
        r == stmts_use(v@, 0, h),
    decreases v, 1int,
{
    let mut i: usize = 0;
    while i < v.len()
        invariant
            i <= v.len(),
            stmts_use(v@, 0, h) == stmts_use(v@, i as int, h),
        decreases v.len() - i,
    {
        proof {
            assert(decreases_to!(*v => v[i as int]));
        }
        if stmt_uses_helper(&v[i], h) {
            return true;
        }
        i += 1;
    }
    false
}

fn handler_uses_helper(x: &PyExceptHandler, h: Helper) -> (r: bool)
    ensures
        r == handler_uses(*x, h),
    decreases x, 0int,
{
    opt_expr_uses_helper(&x.exception_type, h) || stmts_use_helper(&x.body, h)
}

fn handlers_use_helper(v: &Vec<PyExceptHandler>, h: Helper) -> (r: bool)
    ensures
        r == handlers_use(v@, 0, h),
    decreases v, 1int,
{
    let mut i: usize = 0;
    while i < v.len()
        invariant
            i <= v.len(),
            handlers_use(v@, 0, h) == handlers_use(v@, i as int, h),
        decreases v.len() - i,
    {
        proof {
            assert(decreases_to!(*v => v[i as int]));
        }
        if handler_uses_helper(&v[i], h) {
            return true;
        }
        i += 1;
    }
    false
}

/// Whether a module needs the compact-try helper.
pub fn module_uses_snail_try(module: &PyModule) -> (r: bool)
    ensures
        r == module_uses(*module, Helper::Try),
{
    stmts_use_helper(&module.body, Helper::Try)
}

/// Whether a module needs the regex helpers.
pub fn module_uses_snail_regex(module: &PyModule) -> (r: bool)
    ensures
        r == module_uses(*module, Helper::Regex),
{
    stmts_use_helper(&module.body, Helper::Regex)
}

/// Whether a module needs the subprocess helpers.
pub fn module_uses_snail_subprocess(module: &PyModule) -> (r: bool)
    ensures
        r == module_uses(*module, Helper::Subprocess),
{
    stmts_use_helper(&module.body, Helper::Subprocess)
}

/// Whether a module needs the structured-accessor helpers.
pub fn module_uses_structured_accessor(module: &PyModule) -> (r: bool)
    ensures
        r == module_uses(*module, Helper::Structured),
{
    stmts_use_helper(&module.body, Helper::Structured)
}


/// The value an argument passes, whatever its kind.
pub open spec fn py_arg_value(a: PyArgument) -> PyExpr {
    match a {
        PyArgument::Positional { value, .. } => value,
        PyArgument::Keyword { value, .. } => value,
        PyArgument::Star { value, .. } => value,
        PyArgument::KwStar { value, .. } => value,
    }
}

/// Whether `c` is one of the expressions that `e` is made of directly: an
/// operand, a callee, an argument's value, an element, a key or value, an
/// interpolated part, a bound of a slice, a body or a condition.
pub open spec fn is_subexpression(c: PyExpr, e: PyExpr) -> bool {
    match e {
        PyExpr::FString { parts, .. } => exists|i: int| 0 <= i < parts.len() && #[trigger] parts[i] == PyFStringPart::Expr(c),
        PyExpr::Unary { operand, .. } => c == *operand,
        PyExpr::Binary { left, right, .. } => c == *left || c == *right,
        PyExpr::Compare { left, comparators, .. } => c == *left || exists|i: int| 0 <= i < comparators.len() && #[trigger] comparators[i] == c,
        PyExpr::IfExpr { test, body, orelse, .. } => c == *test || c == *body || c == *orelse,
        PyExpr::Lambda { body, .. } => c == *body,
        PyExpr::Call { func, args, .. } => c == *func || exists|i: int| 0 <= i < args.len() && #[trigger] py_arg_value(args[i]) == c,
        PyExpr::Attribute { value, .. } => c == *value,
        PyExpr::Index { value, index, .. } => c == *value || c == *index,
        PyExpr::Paren { expr, .. } => c == *expr,
        PyExpr::List { elements, .. } => exists|i: int| 0 <= i < elements.len() && #[trigger] elements[i] == c,
        PyExpr::Tuple { elements, .. } => exists|i: int| 0 <= i < elements.len() && #[trigger] elements[i] == c,
        PyExpr::SetLiteral { elements, .. } => exists|i: int| 0 <= i < elements.len() && #[trigger] elements[i] == c,
        PyExpr::Dict { entries, .. } => exists|i: int| 0 <= i < entries.len() && (#[trigger] entries[i].0 == c || entries[i].1 == c),
        PyExpr::ListComp { element, iter, ifs, .. } => c == *element || c == *iter || exists|i: int| 0 <= i < ifs.len() && #[trigger] ifs[i] == c,
        PyExpr::DictComp { key, value, iter, ifs, .. } => c == *key || c == *value || c == *iter || exists|i: int| 0 <= i < ifs.len() && #[trigger] ifs[i] == c,
        PyExpr::Slice { start, end, .. } => start == Some(Box::new(c)) || end == Some(Box::new(c)),
        _ => false,
    }
}

proof fn lemma_exprs_use_from(s: Seq<PyExpr>, k: int, h: Helper)
    requires
        0 <= k <= s.len(),
    ensures
        exprs_use(s, k, h) <==> exists|i: int| k <= i < s.len() && expr_uses(#[trigger] s[i], h),
    decreases s.len() - k,
{
    if k < s.len() {
        lemma_exprs_use_from(s, k + 1, h);
        if expr_uses(s[k], h) {
            assert(k <= k < s.len() && expr_uses(s[k], h));
        }
    }
}

proof fn lemma_entries_use_from(s: Seq<(PyExpr, PyExpr)>, k: int, h: Helper)
    requires
        0 <= k <= s.len(),
    ensures
        entries_use(s, k, h) <==> exists|i: int| k <= i < s.len() && (expr_uses(#[trigger] s[i].0, h) || expr_uses(s[i].1, h)),
    decreases s.len() - k,
{
    if k < s.len() {
        lemma_entries_use_from(s, k + 1, h);
        if expr_uses(s[k].0, h) || expr_uses(s[k].1, h) {
            assert(k <= k < s.len() && (expr_uses(s[k].0, h) || expr_uses(s[k].1, h)));
        }
    }
}

proof fn lemma_args_use_from(s: Seq<PyArgument>, k: int, h: Helper)
    requires
        0 <= k <= s.len(),
    ensures
        args_use(s, k, h) <==> exists|i: int| k <= i < s.len() && expr_uses(py_arg_value(#[trigger] s[i]), h),
    decreases s.len() - k,
{
    if k < s.len() {
        lemma_args_use_from(s, k + 1, h);
        assert(arg_uses(s[k], h) == expr_uses(py_arg_value(s[k]), h));
        if expr_uses(py_arg_value(s[k]), h) {
            assert(k <= k < s.len() && expr_uses(py_arg_value(s[k]), h));
        }
    }
}

proof fn lemma_fparts_use_from(s: Seq<PyFStringPart>, k: int, h: Helper)
    requires
        0 <= k <= s.len(),
    ensures
        fparts_use(s, k, h) <==> exists|i: int| k <= i < s.len() && (#[trigger] s[i] matches PyFStringPart::Expr(e) && expr_uses(e, h)),
    decreases s.len() - k,
{
    if k < s.len() {
        lemma_fparts_use_from(s, k + 1, h);
        if s[k] matches PyFStringPart::Expr(e) && expr_uses(e, h) {
            assert(k <= k < s.len() && (s[k] matches PyFStringPart::Expr(e) && expr_uses(e, h)));
        }
    }
}

/// A helper is needed where it is called, at any depth: an expression uses
/// a helper when it calls it by name, or when one of the expressions it is
/// made of uses it (both operands of a binary operator, every argument,
/// every element), and only then.
#[verifier::rlimit(40)]
pub proof fn lemma_helper_use_reaches_up(e: PyExpr, h: Helper)
    ensures
        e matches PyExpr::Call { func, .. } && calls_helper(*func, h) ==> expr_uses(e, h),
        forall|c: PyExpr| #[trigger] is_subexpression(c, e) && expr_uses(c, h) ==> expr_uses(e, h),
        expr_uses(e, h) ==> ((e matches PyExpr::Call { func, .. } && calls_helper(*func, h))
            || exists|c: PyExpr| #[trigger] is_subexpression(c, e) && expr_uses(c, h)),
{
    match e {
        PyExpr::FString { parts, .. } => {
            lemma_fparts_use_from(parts@, 0, h);
            if expr_uses(e, h) {
                let i = choose|i: int| 0 <= i < parts@.len() && (#[trigger] parts@[i] matches PyFStringPart::Expr(x) && expr_uses(x, h));
                let c = parts@[i]->Expr_0;
                assert(is_subexpression(c, e));
            }
            assert forall|c: PyExpr| #[trigger] is_subexpression(c, e) && expr_uses(c, h) implies expr_uses(e, h) by {
                let i = choose|i: int| 0 <= i < parts.len() && #[trigger] parts[i] == PyFStringPart::Expr(c);
                assert(parts@[i] matches PyFStringPart::Expr(x) && expr_uses(x, h));
            }
        },
        PyExpr::Unary { operand, .. } => {
            if expr_uses(e, h) {
                assert(is_subexpression(*operand, e));
            }
        },
        PyExpr::Binary { left, right, .. } => {
            if expr_uses(*left, h) {
                assert(is_subexpression(*left, e));
            }
            if expr_uses(*right, h) {
                assert(is_subexpression(*right, e));
            }
        },
        PyExpr::Compare { left, comparators, .. } => {
            lemma_exprs_use_from(comparators@, 0, h);
            if expr_uses(*left, h) {
                assert(is_subexpression(*left, e));
            }
            if exprs_use(comparators@, 0, h) {
                let i = choose|i: int| 0 <= i < comparators@.len() && expr_uses(#[trigger] comparators@[i], h);
                assert(is_subexpression(comparators@[i], e));
            }
            assert forall|c: PyExpr| #[trigger] is_subexpression(c, e) && expr_uses(c, h) implies expr_uses(e, h) by {
                if c != *left {
                    let i = choose|i: int| 0 <= i < comparators.len() && #[trigger] comparators[i] == c;
                    assert(expr_uses(comparators@[i], h));
                }
            }
        },
        PyExpr::IfExpr { test, body, orelse, .. } => {
            if expr_uses(*test, h) {
                assert(is_subexpression(*test, e));
            }
            if expr_uses(*body, h) {
                assert(is_subexpression(*body, e));
            }
            if expr_uses(*orelse, h) {
                assert(is_subexpression(*orelse, e));
            }
        },
        PyExpr::Lambda { body, .. } => {
            if expr_uses(e, h) {
                assert(is_subexpression(*body, e));
            }
        },
        PyExpr::Call { func, args, .. } => {
            lemma_args_use_from(args@, 0, h);
            if expr_uses(*func, h) {
                assert(is_subexpression(*func, e));
            }
            if args_use(args@, 0, h) {
                let i = choose|i: int| 0 <= i < args@.len() && expr_uses(py_arg_value(#[trigger] args@[i]), h);
                assert(is_subexpression(py_arg_value(args@[i]), e));
            }
            assert forall|c: PyExpr| #[trigger] is_subexpression(c, e) && expr_uses(c, h) implies expr_uses(e, h) by {
                if c != *func {
                    let i = choose|i: int| 0 <= i < args.len() && #[trigger] py_arg_value(args[i]) == c;
                    assert(expr_uses(py_arg_value(args@[i]), h));
                }
            }
        },
        PyExpr::Attribute { value, .. } => {
            if expr_uses(e, h) {
                assert(is_subexpression(*value, e));
            }
        },
        PyExpr::Index { value, index, .. } => {
            if expr_uses(*value, h) {
                assert(is_subexpression(*value, e));
            }
            if expr_uses(*index, h) {
                assert(is_subexpression(*index, e));
            }
        },
        PyExpr::Paren { expr, .. } => {
            if expr_uses(e, h) {
                assert(is_subexpression(*expr, e));
            }
        },
        PyExpr::List { elements, .. } => lemma_elements_reach_up(e, elements@, h),
        PyExpr::Tuple { elements, .. } => lemma_elements_reach_up(e, elements@, h),
        PyExpr::SetLiteral { elements, .. } => lemma_elements_reach_up(e, elements@, h),
        PyExpr::Dict { entries, .. } => {
            lemma_entries_use_from(entries@, 0, h);
            if expr_uses(e, h) {
                let i = choose|i: int| 0 <= i < entries@.len() && (expr_uses(#[trigger] entries@[i].0, h) || expr_uses(entries@[i].1, h));
                if expr_uses(entries@[i].0, h) {
                    assert(is_subexpression(entries@[i].0, e));
                } else {
                    assert(is_subexpression(entries@[i].1, e));
                }
            }
            assert forall|c: PyExpr| #[trigger] is_subexpression(c, e) && expr_uses(c, h) implies expr_uses(e, h) by {
                let i = choose|i: int| 0 <= i < entries.len() && (#[trigger] entries[i].0 == c || entries[i].1 == c);
                assert(expr_uses(entries@[i].0, h) || expr_uses(entries@[i].1, h));
            }
        },
        PyExpr::ListComp { element, iter, ifs, .. } => {
            lemma_exprs_use_from(ifs@, 0, h);
            if expr_uses(*element, h) {
                assert(is_subexpression(*element, e));
            }
            if expr_uses(*iter, h) {
                assert(is_subexpression(*iter, e));
            }
            if exprs_use(ifs@, 0, h) {
                let i = choose|i: int| 0 <= i < ifs@.len() && expr_uses(#[trigger] ifs@[i], h);
                assert(is_subexpression(ifs@[i], e));
            }
            assert forall|c: PyExpr| #[trigger] is_subexpression(c, e) && expr_uses(c, h) implies expr_uses(e, h) by {
                if c != *element && c != *iter {
                    let i = choose|i: int| 0 <= i < ifs.len() && #[trigger] ifs[i] == c;
                    assert(expr_uses(ifs@[i], h));
                }
            }
        },
        PyExpr::DictComp { key, value, iter, ifs, .. } => {
            lemma_exprs_use_from(ifs@, 0, h);
            if expr_uses(*key, h) {
                assert(is_subexpression(*key, e));
            }
            if expr_uses(*value, h) {
                assert(is_subexpression(*value, e));
            }
            if expr_uses(*iter, h) {
                assert(is_subexpression(*iter, e));
            }
            if exprs_use(ifs@, 0, h) {
                let i = choose|i: int| 0 <= i < ifs@.len() && expr_uses(#[trigger] ifs@[i], h);
                assert(is_subexpression(ifs@[i], e));
            }
            assert forall|c: PyExpr| #[trigger] is_subexpression(c, e) && expr_uses(c, h) implies expr_uses(e, h) by {
                if c != *key && c != *value && c != *iter {
                    let i = choose|i: int| 0 <= i < ifs.len() && #[trigger] ifs[i] == c;
                    assert(expr_uses(ifs@[i], h));
                }
            }
        },
        PyExpr::Slice { start, end, .. } => {
            if let Some(b) = start {
                if expr_uses(*b, h) {
                    assert(is_subexpression(*b, e));
                }
            }
            if let Some(b) = end {
                if expr_uses(*b, h) {
                    assert(is_subexpression(*b, e));
                }
            }
        },
        _ => {},
    }
}

proof fn lemma_elements_reach_up(e: PyExpr, elements: Seq<PyExpr>, h: Helper)
    requires
        (e matches PyExpr::List { elements: v, .. } && v@ == elements)
            || (e matches PyExpr::Tuple { elements: v, .. } && v@ == elements)
            || (e matches PyExpr::SetLiteral { elements: v, .. } && v@ == elements),
    ensures
        forall|c: PyExpr| #[trigger] is_subexpression(c, e) && expr_uses(c, h) ==> expr_uses(e, h),
        expr_uses(e, h) ==> exists|c: PyExpr| #[trigger] is_subexpression(c, e) && expr_uses(c, h),
{
    lemma_exprs_use_from(elements, 0, h);
    assert(expr_uses(e, h) == exprs_use(elements, 0, h));
    if expr_uses(e, h) {
        let i = choose|i: int| 0 <= i < elements.len() && expr_uses(#[trigger] elements[i], h);
        assert(is_subexpression(elements[i], e));
    }
    assert forall|c: PyExpr| #[trigger] is_subexpression(c, e) && expr_uses(c, h) implies expr_uses(e, h) by {
        let i = choose|i: int| 0 <= i < elements.len() && #[trigger] elements[i] == c;
        assert(expr_uses(elements[i], h));
    }
}


/// Whether `t` is one of the statements of the block `b`.
pub open spec fn in_block(t: PyStmt, b: Vec<PyStmt>) -> bool {
    exists|i: int| 0 <= i < b.len() && #[trigger] b[i] == t
}

/// Whether `c` is one of the expressions of the statement `s` itself: a
/// condition, an iterable, a target, a value, an exception type, a context.
pub open spec fn is_statement_expression(c: PyExpr, s: PyStmt) -> bool {
    match s {
        PyStmt::If { test, .. } => c == test,
        PyStmt::While { test, .. } => c == test,
        PyStmt::For { target, iter, .. } => c == target || c == iter,
        PyStmt::Try { handlers, .. } => exists|i: int| 0 <= i < handlers.len() && #[trigger] handlers[i].exception_type == Some(c),
        PyStmt::With { items, .. } => exists|i: int| 0 <= i < items.len() && (#[trigger] items[i].context == c || items[i].target == Some(c)),
        PyStmt::Return { value, .. } => value == Some(c),
        PyStmt::Raise { value, from, .. } => value == Some(c) || from == Some(c),
        PyStmt::Assert { test, message, .. } => c == test || message == Some(c),
        PyStmt::Delete { targets, .. } => exists|i: int| 0 <= i < targets.len() && #[trigger] targets[i] == c,
        PyStmt::Assign { targets, value, .. } => c == value || exists|i: int| 0 <= i < targets.len() && #[trigger] targets[i] == c,
        PyStmt::Expr { value, .. } => c == value,
        _ => false,
    }
}

/// Whether `t` is a statement of one of the blocks of `s`: a body, an
/// `else` or `finally` block, or the body of an exception handler.
pub open spec fn is_inner_statement(t: PyStmt, s: PyStmt) -> bool {
    match s {
        PyStmt::If { body, orelse, .. } => in_block(t, body) || in_block(t, orelse),
        PyStmt::While { body, orelse, .. } => in_block(t, body) || in_block(t, orelse),
        PyStmt::For { body, orelse, .. } => in_block(t, body) || in_block(t, orelse),
        PyStmt::FunctionDef { body, .. } => in_block(t, body),
        PyStmt::ClassDef { body, .. } => in_block(t, body),
        PyStmt::Try { body, handlers, orelse, finalbody, .. } => in_block(t, body) || in_block(t, orelse)
            || in_block(t, finalbody) || exists|i: int| 0 <= i < handlers.len() && in_block(t, #[trigger] handlers[i].body),
        PyStmt::With { body, .. } => in_block(t, body),
        _ => false,
    }
}

proof fn lemma_block_reach(s: PyStmt, b: Vec<PyStmt>, h: Helper)
    ensures
        stmts_use(b@, 0, h) <==> exists|t: PyStmt| #[trigger] in_block(t, b) && stmt_uses(t, h),
{
    lemma_stmts_use_from(b@, 0, h);
    if stmts_use(b@, 0, h) {
        let i = choose|i: int| 0 <= i < b@.len() && stmt_uses(#[trigger] b@[i], h);
        assert(in_block(b@[i], b));
    }
    if exists|t: PyStmt| #[trigger] in_block(t, b) && stmt_uses(t, h) {
        let t = choose|t: PyStmt| #[trigger] in_block(t, b) && stmt_uses(t, h);
        let i = choose|i: int| 0 <= i < b.len() && #[trigger] b[i] == t;
        assert(stmt_uses(b@[i], h));
    }
}

proof fn lemma_handlers_use_from(s: Seq<PyExceptHandler>, k: int, h: Helper)
    requires
        0 <= k <= s.len(),
    ensures
        handlers_use(s, k, h) <==> exists|i: int| k <= i < s.len() && handler_uses(#[trigger] s[i], h),
    decreases s.len() - k,
{
    if k < s.len() {
        lemma_handlers_use_from(s, k + 1, h);
        if handler_uses(s[k], h) {
            assert(k <= k < s.len() && handler_uses(s[k], h));
        }
    }
}

proof fn lemma_with_items_use_from(s: Seq<PyWithItem>, k: int, h: Helper)
    requires
        0 <= k <= s.len(),
    ensures
        with_items_use(s, k, h) <==> exists|i: int| k <= i < s.len() && with_item_uses(#[trigger] s[i], h),
    decreases s.len() - k,
{
    if k < s.len() {
        lemma_with_items_use_from(s, k + 1, h);
        if with_item_uses(s[k], h) {
            assert(k <= k < s.len() && with_item_uses(s[k], h));
        }
    }
}

/// A statement uses a helper when one of its own expressions does, or one
/// of the statements of its blocks does (every block: body, `else`,
/// `finally`, each handler), and only then.
#[verifier::rlimit(60)]
pub proof fn lemma_statement_use_reaches_up(s: PyStmt, h: Helper)
    ensures
        forall|c: PyExpr| #[trigger] is_statement_expression(c, s) && expr_uses(c, h) ==> stmt_uses(s, h),
        forall|t: PyStmt| #[trigger] is_inner_statement(t, s) && stmt_uses(t, h) ==> stmt_uses(s, h),
        stmt_uses(s, h) ==> (exists|c: PyExpr| #[trigger] is_statement_expression(c, s) && expr_uses(c, h))
            || (exists|t: PyStmt| #[trigger] is_inner_statement(t, s) && stmt_uses(t, h)),
{
    match s {
        PyStmt::If { test, body, orelse, .. } => {
            lemma_block_reach(s, body, h);
            if stmts_use(body@, 0, h) {
                let t = choose|t: PyStmt| #[trigger] in_block(t, body) && stmt_uses(t, h);
                assert(is_inner_statement(t, s));
            }
            lemma_block_reach(s, orelse, h);
            if stmts_use(orelse@, 0, h) {
                let t = choose|t: PyStmt| #[trigger] in_block(t, orelse) && stmt_uses(t, h);
                assert(is_inner_statement(t, s));
            }
            if expr_uses(test, h) {
                assert(is_statement_expression(test, s));
            }
        },
        PyStmt::While { test, body, orelse, .. } => {
            lemma_block_reach(s, body, h);
            if stmts_use(body@, 0, h) {
                let t = choose|t: PyStmt| #[trigger] in_block(t, body) && stmt_uses(t, h);
                assert(is_inner_statement(t, s));
            }
            lemma_block_reach(s, orelse, h);
            if stmts_use(orelse@, 0, h) {
                let t = choose|t: PyStmt| #[trigger] in_block(t, orelse) && stmt_uses(t, h);
                assert(is_inner_statement(t, s));
            }
            if expr_uses(test, h) {
                assert(is_statement_expression(test, s));
            }
        },
        PyStmt::For { target, iter, body, orelse, .. } => {
            lemma_block_reach(s, body, h);
            if stmts_use(body@, 0, h) {
                let t = choose|t: PyStmt| #[trigger] in_block(t, body) && stmt_uses(t, h);
                assert(is_inner_statement(t, s));
            }
            lemma_block_reach(s, orelse, h);
            if stmts_use(orelse@, 0, h) {
                let t = choose|t: PyStmt| #[trigger] in_block(t, orelse) && stmt_uses(t, h);
                assert(is_inner_statement(t, s));
            }
            if expr_uses(target, h) {
                assert(is_statement_expression(target, s));
            }
            if expr_uses(iter, h) {
                assert(is_statement_expression(iter, s));
            }
        },
        PyStmt::FunctionDef { body, .. } => {
            lemma_block_reach(s, body, h);
            if stmts_use(body@, 0, h) {
                let t = choose|t: PyStmt| #[trigger] in_block(t, body) && stmt_uses(t, h);
                assert(is_inner_statement(t, s));
            }
        },
        PyStmt::ClassDef { body, .. } => {
            lemma_block_reach(s, body, h);
            if stmts_use(body@, 0, h) {
                let t = choose|t: PyStmt| #[trigger] in_block(t, body) && stmt_uses(t, h);
                assert(is_inner_statement(t, s));
            }
        },
        PyStmt::Try { body, handlers, orelse, finalbody, .. } => {
            lemma_block_reach(s, body, h);
            if stmts_use(body@, 0, h) {
                let t = choose|t: PyStmt| #[trigger] in_block(t, body) && stmt_uses(t, h);
                assert(is_inner_statement(t, s));
            }
            lemma_block_reach(s, orelse, h);
            if stmts_use(orelse@, 0, h) {
                let t = choose|t: PyStmt| #[trigger] in_block(t, orelse) && stmt_uses(t, h);
                assert(is_inner_statement(t, s));
            }
            lemma_block_reach(s, finalbody, h);
            if stmts_use(finalbody@, 0, h) {
                let t = choose|t: PyStmt| #[trigger] in_block(t, finalbody) && stmt_uses(t, h);
                assert(is_inner_statement(t, s));
            }
            lemma_handlers_use_from(handlers@, 0, h);
            if handlers_use(handlers@, 0, h) {
                let i = choose|i: int| 0 <= i < handlers@.len() && handler_uses(#[trigger] handlers@[i], h);
                let x = handlers@[i];
                if let Some(c) = x.exception_type {
                    if expr_uses(c, h) {
                        assert(is_statement_expression(c, s));
                    }
                }
                lemma_block_reach(s, x.body, h);
                if stmts_use(x.body@, 0, h) {
                    let t = choose|t: PyStmt| #[trigger] in_block(t, x.body) && stmt_uses(t, h);
                    assert(is_inner_statement(t, s));
                }
            }
            assert forall|c: PyExpr| #[trigger] is_statement_expression(c, s) && expr_uses(c, h) implies stmt_uses(s, h) by {
                let i = choose|i: int| 0 <= i < handlers.len() && #[trigger] handlers[i].exception_type == Some(c);
                assert(handler_uses(handlers@[i], h));
            }
            assert forall|t: PyStmt| #[trigger] is_inner_statement(t, s) && stmt_uses(t, h) implies stmt_uses(s, h) by {
                if !in_block(t, body) && !in_block(t, orelse) && !in_block(t, finalbody) {
                    let i = choose|i: int| 0 <= i < handlers.len() && in_block(t, #[trigger] handlers[i].body);
                    lemma_block_reach(s, handlers@[i].body, h);
                    assert(handler_uses(handlers@[i], h));
                }
            }
        },
        PyStmt::With { items, body, .. } => {
            lemma_block_reach(s, body, h);
            if stmts_use(body@, 0, h) {
                let t = choose|t: PyStmt| #[trigger] in_block(t, body) && stmt_uses(t, h);
                assert(is_inner_statement(t, s));
            }
            lemma_with_items_use_from(items@, 0, h);
            if with_items_use(items@, 0, h) {
                let i = choose|i: int| 0 <= i < items@.len() && with_item_uses(#[trigger] items@[i], h);
                if expr_uses(items@[i].context, h) {
                    assert(is_statement_expression(items@[i].context, s));
                } else {
                    let c = items@[i].target.unwrap();
                    assert(is_statement_expression(c, s));
                }
            }
            assert forall|c: PyExpr| #[trigger] is_statement_expression(c, s) && expr_uses(c, h) implies stmt_uses(s, h) by {
                let i = choose|i: int| 0 <= i < items.len() && (#[trigger] items[i].context == c || items[i].target == Some(c));
                assert(with_item_uses(items@[i], h));
            }
        },
        PyStmt::Return { value, .. } => {
            if let Some(c) = value {
                if expr_uses(c, h) {
                    assert(is_statement_expression(c, s));
                }
            }
        },
        PyStmt::Raise { value, from, .. } => {
            if let Some(c) = value {
                if expr_uses(c, h) {
                    assert(is_statement_expression(c, s));
                }
            }
            if let Some(c) = from {
                if expr_uses(c, h) {
                    assert(is_statement_expression(c, s));
                }
            }
        },
        PyStmt::Assert { test, message, .. } => {
            if expr_uses(test, h) {
                assert(is_statement_expression(test, s));
            }
            if let Some(c) = message {
                if expr_uses(c, h) {
                    assert(is_statement_expression(c, s));
                }
            }
        },
        PyStmt::Delete { targets, .. } => {
            lemma_exprs_use_from(targets@, 0, h);
            if exprs_use(targets@, 0, h) {
                let i = choose|i: int| 0 <= i < targets@.len() && expr_uses(#[trigger] targets@[i], h);
                assert(is_statement_expression(targets@[i], s));
            }
            assert forall|c: PyExpr| #[trigger] is_statement_expression(c, s) && expr_uses(c, h) implies stmt_uses(s, h) by {
                let i = choose|i: int| 0 <= i < targets.len() && #[trigger] targets[i] == c;
                assert(expr_uses(targets@[i], h));
            }
        },
        PyStmt::Assign { targets, value, .. } => {
            lemma_exprs_use_from(targets@, 0, h);
            if expr_uses(value, h) {
                assert(is_statement_expression(value, s));
            }
            if exprs_use(targets@, 0, h) {
                let i = choose|i: int| 0 <= i < targets@.len() && expr_uses(#[trigger] targets@[i], h);
                assert(is_statement_expression(targets@[i], s));
            }
            assert forall|c: PyExpr| #[trigger] is_statement_expression(c, s) && expr_uses(c, h) implies stmt_uses(s, h) by {
                if c != value {
                    let i = choose|i: int| 0 <= i < targets.len() && #[trigger] targets[i] == c;
                    assert(expr_uses(targets@[i], h));
                }
            }
        },
        PyStmt::Expr { value, .. } => {
            if expr_uses(value, h) {
                assert(is_statement_expression(value, s));
            }
        },
        _ => {},
    }
}

} // verus!
