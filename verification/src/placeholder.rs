//! Placeholders of piped calls: a `_` name anywhere among the arguments of
//! a call on the right of `|` marks where the piped value goes. Only one is
//! allowed; this module counts them and finds the first.
use vstd::prelude::*;
use crate::ast::{Argument, Expr, FStringPart, RegexPattern, SourceSpan, SubprocessPart};
use crate::lower::{PLACEHOLDER_NAME, arg_value};
use crate::text::str_eq;

verus! {

/// No placeholder.
pub open spec fn no_info() -> (nat, Option<SourceSpan>) {
    (0nat, None)
}

/// The placeholders of two parts one after the other: their numbers added,
/// and the first of the first part, else of the second.
pub open spec fn join_info(a: (nat, Option<SourceSpan>), b: (nat, Option<SourceSpan>)) -> (nat, Option<SourceSpan>) {
    (a.0 + b.0, if a.1 is Some { a.1 } else { b.1 })
}

/// How many placeholders an expression holds, at any depth, and the span of
/// the first in the order of its fields.
pub open spec fn placeholder_info_spec(e: Expr) -> (nat, Option<SourceSpan>)
    decreases e, 0int,
{
    match e {
        Expr::Name { name, span } => if name@ == PLACEHOLDER_NAME@ {
            (1nat, Some(span))
        } else {
            no_info()
        },
        Expr::Number { .. } => no_info(),
        Expr::String { .. } => no_info(),
        Expr::FString { parts, .. } => fparts_info(parts@, parts@.len() as int),
        Expr::Bool { .. } => no_info(),
        Expr::NoneLiteral { .. } => no_info(),
        Expr::Unary { expr, .. } => placeholder_info_spec(*expr),
        Expr::Binary { left, right, .. } => join_info(placeholder_info_spec(*left), placeholder_info_spec(*right)),
        Expr::Compare { left, comparators, .. } => join_info(placeholder_info_spec(*left), exprs_info(comparators@, comparators@.len() as int)),
        Expr::IfExpr { test, body, orelse, .. } => join_info(join_info(placeholder_info_spec(*test), placeholder_info_spec(*body)), placeholder_info_spec(*orelse)),
        Expr::TryExpr { expr, fallback, .. } => join_info(placeholder_info_spec(*expr), opt_info(fallback)),
        Expr::Compound { expressions, .. } => exprs_info(expressions@, expressions@.len() as int),
        Expr::Regex { pattern, .. } => pattern_info(pattern),
        Expr::RegexMatch { value, pattern, .. } => join_info(placeholder_info_spec(*value), pattern_info(pattern)),
        Expr::Subprocess { parts, .. } => subparts_info(parts@, parts@.len() as int),
        Expr::StructuredAccessor { .. } => no_info(),
        Expr::Call { func, args, .. } => join_info(placeholder_info_spec(*func), args_info(args@, args@.len() as int)),
        Expr::Attribute { value, .. } => placeholder_info_spec(*value),
        Expr::Index { value, index, .. } => join_info(placeholder_info_spec(*value), placeholder_info_spec(*index)),
        Expr::Paren { expr, .. } => placeholder_info_spec(*expr),
        Expr::FieldIndex { .. } => no_info(),
        Expr::List { elements, .. } => exprs_info(elements@, elements@.len() as int),
        Expr::Tuple { elements, .. } => exprs_info(elements@, elements@.len() as int),
        Expr::Dict { entries, .. } => entries_info(entries@, entries@.len() as int),
        Expr::SetLiteral { elements, .. } => exprs_info(elements@, elements@.len() as int),
        Expr::ListComp { element, iter, ifs, .. } => join_info(join_info(placeholder_info_spec(*element), placeholder_info_spec(*iter)), exprs_info(ifs@, ifs@.len() as int)),
        Expr::DictComp { key, value, iter, ifs, .. } => join_info(join_info(join_info(placeholder_info_spec(*key), placeholder_info_spec(*value)), placeholder_info_spec(*iter)), exprs_info(ifs@, ifs@.len() as int)),
        Expr::Slice { start, end, .. } => join_info(opt_info(start), opt_info(end)),
    }
}

pub open spec fn opt_info(o: Option<Box<Expr>>) -> (nat, Option<SourceSpan>)
    decreases o, 0int,
{
    match o {
        Some(b) => placeholder_info_spec(*b),
        None => no_info(),
    }
}

pub open spec fn fpart_info(p: FStringPart) -> (nat, Option<SourceSpan>)
    decreases p, 0int,
{
    match p {
        FStringPart::Text(_) => no_info(),
        FStringPart::Expr(b) => placeholder_info_spec(*b),
    }
}

pub open spec fn subpart_info(p: SubprocessPart) -> (nat, Option<SourceSpan>)
    decreases p, 0int,
{
    match p {
        SubprocessPart::Text(_) => no_info(),
        SubprocessPart::Expr(b) => placeholder_info_spec(*b),
    }
}

pub open spec fn pattern_info(p: RegexPattern) -> (nat, Option<SourceSpan>)
    decreases p, 0int,
{
    match p {
        RegexPattern::Literal(_) => no_info(),
        RegexPattern::Interpolated(v) => fparts_info(v@, v@.len() as int),
    }
}

pub open spec fn exprs_info(s: Seq<Expr>, n: int) -> (nat, Option<SourceSpan>)
    decreases s, n,
{
    if n <= 0 || n > s.len() {
        no_info()
    } else {
        join_info(exprs_info(s, n - 1), placeholder_info_spec(s[n - 1]))
    }
}

pub open spec fn entries_info(s: Seq<(Expr, Expr)>, n: int) -> (nat, Option<SourceSpan>)
    decreases s, n,
{
    if n <= 0 || n > s.len() {
        no_info()
    } else {
        join_info(entries_info(s, n - 1), join_info(placeholder_info_spec(s[n - 1].0), placeholder_info_spec(s[n - 1].1)))
    }
}

pub open spec fn args_info(s: Seq<Argument>, n: int) -> (nat, Option<SourceSpan>)
    decreases s, n,
{
    if n <= 0 || n > s.len() {
        no_info()
    } else {
        join_info(args_info(s, n - 1), placeholder_info_spec(arg_value(s[n - 1])))
    }
}

pub open spec fn fparts_info(s: Seq<FStringPart>, n: int) -> (nat, Option<SourceSpan>)
    decreases s, n,
{
    if n <= 0 || n > s.len() {
        no_info()
    } else {
        join_info(fparts_info(s, n - 1), fpart_info(s[n - 1]))
    }
}

pub open spec fn subparts_info(s: Seq<SubprocessPart>, n: int) -> (nat, Option<SourceSpan>)
    decreases s, n,
{
    if n <= 0 || n > s.len() {
        no_info()
    } else {
        join_info(subparts_info(s, n - 1), subpart_info(s[n - 1]))
    }
}


/// Whether a count kept up to two matches the placeholders `info`: the
/// number, or two when there are more, and the first span.
pub open spec fn counted(r: (usize, Option<SourceSpan>), info: (nat, Option<SourceSpan>)) -> bool {
    &&& r.0 == (if info.0 >= 2 { 2 } else { info.0 })
    &&& r.1 == info.1
}

fn join_count(a: (usize, Option<SourceSpan>), b: (usize, Option<SourceSpan>)) -> (r: (usize, Option<SourceSpan>))
    requires
        a.0 <= 2,
        b.0 <= 2,
    ensures
        forall|x: (nat, Option<SourceSpan>), y: (nat, Option<SourceSpan>)|
            counted(a, x) && counted(b, y) ==> #[trigger] counted(r, join_info(x, y)),
        r.0 <= 2,
{
    let n = if a.0 + b.0 >= 2 {
        2
    } else {
        a.0 + b.0
    };
    let first = match a.1 {
        Some(s) => Some(s),
        None => b.1,
    };
    (n, first)
}

fn argument_value(a: &Argument) -> (r: &Expr)
    ensures
        *r == arg_value(*a),
{
    match a {
        Argument::Positional { value, .. } => value,
        Argument::Keyword { value, .. } => value,
        Argument::Star { value, .. } => value,
        Argument::KwStar { value, .. } => value,
    }
}

/// The placeholders of an expression, counted up to two, and the span of
/// the first.
pub fn count_placeholders(e: &Expr) -> (r: (usize, Option<SourceSpan>))
    ensures
        counted(r, placeholder_info_spec(*e)),
    decreases e, 1int,
{
    match e {
        Expr::Name { name, span } => if str_eq(name.as_str(), PLACEHOLDER_NAME) {
            (1, Some(*span))
        } else {
            (0, None)
        },
        Expr::Number { .. } => (0, None),
        Expr::String { .. } => (0, None),
        Expr::FString { parts, .. } => {
            let acc = fparts_count(parts);
            acc
        },
        Expr::Bool { .. } => (0, None),
        Expr::NoneLiteral { .. } => (0, None),
        Expr::Unary { expr, .. } => {
            let acc = count_placeholders(&**expr);
            acc
        },
        Expr::Binary { left, right, .. } => {
            let acc = count_placeholders(&**left);
            let acc = join_count(acc, count_placeholders(&**right));
            acc
        },
        Expr::Compare { left, comparators, .. } => {
            let acc = count_placeholders(&**left);
            let acc = join_count(acc, exprs_count(comparators));
            acc
        },
        Expr::IfExpr { test, body, orelse, .. } => {
            let acc = count_placeholders(&**test);
            let acc = join_count(acc, count_placeholders(&**body));
            let acc = join_count(acc, count_placeholders(&**orelse));
            acc
        },
        Expr::TryExpr { expr, fallback, .. } => {
            let acc = count_placeholders(&**expr);
            let acc = join_count(acc, opt_count(fallback));
            acc
        },
        Expr::Compound { expressions, .. } => {
            let acc = exprs_count(expressions);
            acc
        },
        Expr::Regex { pattern, .. } => {
            let acc = pattern_count(pattern);
            acc
        },
        Expr::RegexMatch { value, pattern, .. } => {
            let acc = count_placeholders(&**value);
            let acc = join_count(acc, pattern_count(pattern));
            acc
        },
        Expr::Subprocess { parts, .. } => {
            let acc = subparts_count(parts);
            acc
        },
        Expr::StructuredAccessor { .. } => (0, None),
        Expr::Call { func, args, .. } => {
            let acc = count_placeholders(&**func);
            let acc = join_count(acc, args_count(args));
            acc
        },
        Expr::Attribute { value, .. } => {
            let acc = count_placeholders(&**value);
            acc
        },
        Expr::Index { value, index, .. } => {
            let acc = count_placeholders(&**value);
            let acc = join_count(acc, count_placeholders(&**index));
            acc
        },
        Expr::Paren { expr, .. } => {
            let acc = count_placeholders(&**expr);
            acc
        },
        Expr::FieldIndex { .. } => (0, None),
        Expr::List { elements, .. } => {
            let acc = exprs_count(elements);
            acc
        },
        Expr::Tuple { elements, .. } => {
            let acc = exprs_count(elements);
            acc
        },
        Expr::Dict { entries, .. } => {
            let acc = entries_count(entries);
            acc
        },
        Expr::SetLiteral { elements, .. } => {
            let acc = exprs_count(elements);
            acc
        },
        Expr::ListComp { element, iter, ifs, .. } => {
            let acc = count_placeholders(&**element);
            let acc = join_count(acc, count_placeholders(&**iter));
            let acc = join_count(acc, exprs_count(ifs));
            acc
        },
        Expr::DictComp { key, value, iter, ifs, .. } => {
            let acc = count_placeholders(&**key);
            let acc = join_count(acc, count_placeholders(&**value));
            let acc = join_count(acc, count_placeholders(&**iter));
            let acc = join_count(acc, exprs_count(ifs));
            acc
        },
        Expr::Slice { start, end, .. } => {
            let acc = opt_count(start);
            let acc = join_count(acc, opt_count(end));
            acc
        },
    }
}

fn opt_count(o: &Option<Box<Expr>>) -> (r: (usize, Option<SourceSpan>))
    ensures
        counted(r, opt_info(*o)),
    decreases o, 0int,
{
    match o {
        Some(b) => count_placeholders(&**b),
        None => (0, None),
    }
}

fn fpart_count(p: &FStringPart) -> (r: (usize, Option<SourceSpan>))
    ensures
        counted(r, fpart_info(*p)),
    decreases p, 0int,
{
    match p {
        FStringPart::Text(_) => (0, None),
        FStringPart::Expr(b) => count_placeholders(&**b),
    }
}

fn subpart_count(p: &SubprocessPart) -> (r: (usize, Option<SourceSpan>))
    ensures
        counted(r, subpart_info(*p)),
    decreases p, 0int,
{
    match p {
        SubprocessPart::Text(_) => (0, None),
        SubprocessPart::Expr(b) => count_placeholders(&**b),
    }
}

fn pattern_count(p: &RegexPattern) -> (r: (usize, Option<SourceSpan>))
    ensures
        counted(r, pattern_info(*p)),
    decreases p, 0int,
{
    match p {
        RegexPattern::Literal(_) => (0, None),
        RegexPattern::Interpolated(v) => fparts_count(v),
    }
}

fn exprs_count(v: &Vec<Expr>) -> (r: (usize, Option<SourceSpan>))
    ensures
        counted(r, exprs_info(v@, v@.len() as int)),
    decreases v, 0int,
{
    let mut acc: (usize, Option<SourceSpan>) = (0, None);
    let mut i: usize = 0;
    while i < v.len()
        invariant
            i <= v.len(),
            counted(acc, exprs_info(v@, i as int)),
        decreases v.len() - i,
    {
        proof {
            assert(decreases_to!(*v => v[i as int]));
        }
        acc = join_count(acc, count_placeholders(&v[i]));
        i += 1;
    }
    acc
}

fn entries_count(v: &Vec<(Expr, Expr)>) -> (r: (usize, Option<SourceSpan>))
    ensures
        counted(r, entries_info(v@, v@.len() as int)),
    decreases v, 0int,
{
    let mut acc: (usize, Option<SourceSpan>) = (0, None);
    let mut i: usize = 0;
    while i < v.len()
        invariant
            i <= v.len(),
            counted(acc, entries_info(v@, i as int)),
        decreases v.len() - i,
    {
        proof {
            assert(decreases_to!(*v => v[i as int]));
            assert(decreases_to!(v[i as int] => v[i as int].0));
            assert(decreases_to!(v[i as int] => v[i as int].1));
        }
        let pair = join_count(count_placeholders(&v[i].0), count_placeholders(&v[i].1));
        acc = join_count(acc, pair);
        i += 1;
    }
    acc
}

pub(crate) fn args_count(v: &Vec<Argument>) -> (r: (usize, Option<SourceSpan>))
    ensures
        counted(r, args_info(v@, v@.len() as int)),
    decreases v, 0int,
{
    let mut acc: (usize, Option<SourceSpan>) = (0, None);
    let mut i: usize = 0;
    while i < v.len()
        invariant
            i <= v.len(),
            counted(acc, args_info(v@, i as int)),
        decreases v.len() - i,
    {
        proof {
            assert(decreases_to!(*v => v[i as int]));
            assert(decreases_to!(v[i as int] => arg_value(v[i as int])));
        }
        acc = join_count(acc, count_placeholders(argument_value(&v[i])));
        i += 1;
    }
    acc
}

fn fparts_count(v: &Vec<FStringPart>) -> (r: (usize, Option<SourceSpan>))
    ensures
        counted(r, fparts_info(v@, v@.len() as int)),
    decreases v, 0int,
{
    let mut acc: (usize, Option<SourceSpan>) = (0, None);
    let mut i: usize = 0;
    while i < v.len()
        invariant
            i <= v.len(),
            counted(acc, fparts_info(v@, i as int)),
        decreases v.len() - i,
    {
        proof {
            assert(decreases_to!(*v => v[i as int]));
        }
        acc = join_count(acc, fpart_count(&v[i]));
        i += 1;
    }
    acc
}

fn subparts_count(v: &Vec<SubprocessPart>) -> (r: (usize, Option<SourceSpan>))
    ensures
        counted(r, subparts_info(v@, v@.len() as int)),
    decreases v, 0int,
{
    let mut acc: (usize, Option<SourceSpan>) = (0, None);
    let mut i: usize = 0;
    while i < v.len()
        invariant
            i <= v.len(),
            counted(acc, subparts_info(v@, i as int)),
        decreases v.len() - i,
    {
        proof {
            assert(decreases_to!(*v => v[i as int]));
        }
        acc = join_count(acc, subpart_count(&v[i]));
        i += 1;
    }
    acc
}


} // verus!
