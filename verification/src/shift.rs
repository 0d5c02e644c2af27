//! Moving the spans of an expression that was parsed from a piece of the
//! source (an f-string hole) to where that piece stands in the whole source.
use vstd::prelude::*;
use crate::ast::{Argument, Expr, FStringPart, RegexPattern, SourcePos, SourceSpan};
use crate::source_pos::{shift_span, span_at};

verus! {

/// A span moved `off` bytes further into the source `src`.
pub open spec fn shifted(sp: SourceSpan, off: usize, src: Seq<char>) -> SourceSpan {
    span_at(src, (sp.start.offset + off) as usize, (sp.end.offset + off) as usize)
}

/// Whether a span can be moved `off` bytes without leaving the range of
/// byte offsets.
pub open spec fn span_fits(sp: SourceSpan, off: usize) -> bool {
    sp.start.offset + off <= usize::MAX && sp.end.offset + off <= usize::MAX
}

/// Whether every span that shifting moves fits.
pub open spec fn expr_fits(e: Expr, off: usize) -> bool
    decreases e, 0int,
{
    match e {
        Expr::FString { parts, span } => span_fits(span, off) && forall|i: int|
            0 <= i < parts.len() ==> part_fits(#[trigger] parts[i], off),
        Expr::Regex { pattern, span } => span_fits(span, off) && match pattern {
            RegexPattern::Literal(_) => true,
            RegexPattern::Interpolated(parts) => forall|i: int|
                0 <= i < parts.len() ==> part_fits(#[trigger] parts[i], off),
        },
        Expr::RegexMatch { value, span, .. } => span_fits(span, off) && expr_fits(*value, off),
        Expr::Unary { expr, span, .. } => span_fits(span, off) && expr_fits(*expr, off),
        Expr::Binary { left, right, span, .. } => span_fits(span, off) && expr_fits(*left, off)
            && expr_fits(*right, off),
        Expr::Compare { left, comparators, span, .. } => span_fits(span, off) && expr_fits(*left, off)
            && forall|i: int| 0 <= i < comparators.len() ==> expr_fits(#[trigger] comparators[i], off),
        Expr::IfExpr { test, body, orelse, span } => span_fits(span, off) && expr_fits(*test, off)
            && expr_fits(*body, off) && expr_fits(*orelse, off),
        Expr::TryExpr { expr, fallback, span } => span_fits(span, off) && expr_fits(*expr, off)
            && match fallback {
            Some(f) => expr_fits(*f, off),
            None => true,
        },
        Expr::Compound { expressions, span } => span_fits(span, off) && forall|i: int|
            0 <= i < expressions.len() ==> expr_fits(#[trigger] expressions[i], off),
        Expr::Call { func, args, span } => span_fits(span, off) && expr_fits(*func, off) && forall|i: int|
            0 <= i < args.len() ==> arg_fits(#[trigger] args[i], off),
        Expr::Attribute { value, span, .. } => span_fits(span, off) && expr_fits(*value, off),
        Expr::Index { value, index, span } => span_fits(span, off) && expr_fits(*value, off)
            && expr_fits(*index, off),
        Expr::Paren { expr, span } => span_fits(span, off) && expr_fits(*expr, off),
        Expr::ListComp { element, iter, ifs, span, .. } => span_fits(span, off) && expr_fits(*element, off)
            && expr_fits(*iter, off) && forall|i: int| 0 <= i < ifs.len() ==> expr_fits(#[trigger] ifs[i], off),
        Expr::DictComp { key, value, iter, ifs, span, .. } => span_fits(span, off) && expr_fits(*key, off)
            && expr_fits(*value, off) && expr_fits(*iter, off) && forall|i: int|
            0 <= i < ifs.len() ==> expr_fits(#[trigger] ifs[i], off),
        _ => span_fits(crate::ast::expr_span_of(e), off),
    }
}

pub open spec fn part_fits(p: FStringPart, off: usize) -> bool
    decreases p, 0int,
{
    match p {
        FStringPart::Text(_) => true,
        FStringPart::Expr(e) => expr_fits(*e, off),
    }
}

pub open spec fn arg_fits(a: Argument, off: usize) -> bool
    decreases a, 0int,
{
    match a {
        Argument::Positional { value, span } => span_fits(span, off) && expr_fits(value, off),
        Argument::Keyword { value, span, .. } => span_fits(span, off) && expr_fits(value, off),
        Argument::Star { value, span } => span_fits(span, off) && expr_fits(value, off),
        Argument::KwStar { value, span } => span_fits(span, off) && expr_fits(value, off),
    }
}

/// Whether `b` is `a` with its spans moved `off` bytes into `src`: the
/// span of every node, and of the nodes below it, except inside collection
/// literals, slices, subprocess commands and the pattern of a regex match,
/// which keep their inner spans as they are.
pub open spec fn shifted_expr(a: Expr, b: Expr, off: usize, src: Seq<char>) -> bool
    decreases a, 0int,
{
    match a {
        Expr::Name { name, span } => b == Expr::Name { name, span: shifted(span, off, src) },
        Expr::Number { value, span } => b == Expr::Number { value, span: shifted(span, off, src) },
        Expr::String { value, raw, delimiter, span } => b == Expr::String {
            value,
            raw,
            delimiter,
            span: shifted(span, off, src),
        },
        Expr::Bool { value, span } => b == Expr::Bool { value, span: shifted(span, off, src) },
        Expr::NoneLiteral { span } => b == Expr::NoneLiteral { span: shifted(span, off, src) },
        Expr::Subprocess { kind, parts, span } => b == Expr::Subprocess {
            kind,
            parts,
            span: shifted(span, off, src),
        },
        Expr::StructuredAccessor { query, span } => b == Expr::StructuredAccessor {
            query,
            span: shifted(span, off, src),
        },
        Expr::FieldIndex { index, span } => b == Expr::FieldIndex { index, span: shifted(span, off, src) },
        Expr::List { elements, span } => b == Expr::List { elements, span: shifted(span, off, src) },
        Expr::Tuple { elements, span } => b == Expr::Tuple { elements, span: shifted(span, off, src) },
        Expr::Dict { entries, span } => b == Expr::Dict { entries, span: shifted(span, off, src) },
        Expr::SetLiteral { elements, span } => b == Expr::SetLiteral {
            elements,
            span: shifted(span, off, src),
        },
        Expr::Slice { start, end, span } => b == Expr::Slice { start, end, span: shifted(span, off, src) },
        Expr::FString { parts, span } => b matches Expr::FString { parts: p2, span: s2 } && s2 == shifted(
            span,
            off,
            src,
        ) && p2.len() == parts.len() && forall|i: int|
            0 <= i < parts.len() ==> shifted_part(#[trigger] parts[i], p2[i], off, src),
        Expr::Regex { pattern, span } => b matches Expr::Regex { pattern: q, span: s2 } && s2 == shifted(
            span,
            off,
            src,
        ) && match pattern {
            RegexPattern::Literal(t) => q == RegexPattern::Literal(t),
            RegexPattern::Interpolated(parts) => q matches RegexPattern::Interpolated(p2) && p2.len()
                == parts.len() && forall|i: int|
                0 <= i < parts.len() ==> shifted_part(#[trigger] parts[i], p2[i], off, src),
        },
        Expr::RegexMatch { value, pattern, span } => b matches Expr::RegexMatch {
            value: v2,
            pattern: q,
            span: s2,
        } && q == pattern && s2 == shifted(span, off, src) && shifted_expr(*value, *v2, off, src),
        Expr::Unary { op, expr, span } => b matches Expr::Unary { op: o2, expr: e2, span: s2 } && o2 == op
            && s2 == shifted(span, off, src) && shifted_expr(*expr, *e2, off, src),
        Expr::Binary { left, op, right, span } => b matches Expr::Binary {
            left: l2,
            op: o2,
            right: r2,
            span: s2,
        } && o2 == op && s2 == shifted(span, off, src) && shifted_expr(*left, *l2, off, src)
            && shifted_expr(*right, *r2, off, src),
        Expr::Compare { left, ops, comparators, span } => b matches Expr::Compare {
            left: l2,
            ops: o2,
            comparators: c2,
            span: s2,
        } && o2 == ops && s2 == shifted(span, off, src) && shifted_expr(*left, *l2, off, src) && c2.len()
            == comparators.len() && forall|i: int|
            0 <= i < comparators.len() ==> shifted_expr(#[trigger] comparators[i], c2[i], off, src),
        Expr::IfExpr { test, body, orelse, span } => b matches Expr::IfExpr {
            test: t2,
            body: b2,
            orelse: o2,
            span: s2,
        } && s2 == shifted(span, off, src) && shifted_expr(*test, *t2, off, src) && shifted_expr(
            *body,
            *b2,
            off,
            src,
        ) && shifted_expr(*orelse, *o2, off, src),
        Expr::TryExpr { expr, fallback, span } => b matches Expr::TryExpr {
            expr: e2,
            fallback: f2,
            span: s2,
        } && s2 == shifted(span, off, src) && shifted_expr(*expr, *e2, off, src) && match fallback {
            Some(f) => f2 matches Some(g) && shifted_expr(*f, *g, off, src),
            None => f2 is None,
        },
        Expr::Compound { expressions, span } => b matches Expr::Compound { expressions: x2, span: s2 }
            && s2 == shifted(span, off, src) && x2.len() == expressions.len() && forall|i: int|
            0 <= i < expressions.len() ==> shifted_expr(#[trigger] expressions[i], x2[i], off, src),
        Expr::Call { func, args, span } => b matches Expr::Call { func: f2, args: a2, span: s2 } && s2
            == shifted(span, off, src) && shifted_expr(*func, *f2, off, src) && a2.len() == args.len()
            && forall|i: int| 0 <= i < args.len() ==> shifted_arg(#[trigger] args[i], a2[i], off, src),
        Expr::Attribute { value, attr, span } => b matches Expr::Attribute { value: v2, attr: t2, span: s2 }
            && t2 == attr && s2 == shifted(span, off, src) && shifted_expr(*value, *v2, off, src),
        Expr::Index { value, index, span } => b matches Expr::Index { value: v2, index: i2, span: s2 } && s2
            == shifted(span, off, src) && shifted_expr(*value, *v2, off, src) && shifted_expr(
            *index,
            *i2,
            off,
            src,
        ),
        Expr::Paren { expr, span } => b matches Expr::Paren { expr: e2, span: s2 } && s2 == shifted(
            span,
            off,
            src,
        ) && shifted_expr(*expr, *e2, off, src),
        Expr::ListComp { element, target, iter, ifs, span } => b matches Expr::ListComp {
            element: e2,
            target: t2,
            iter: i2,
            ifs: f2,
            span: s2,
        } && t2 == target && s2 == shifted(span, off, src) && shifted_expr(*element, *e2, off, src)
            && shifted_expr(*iter, *i2, off, src) && f2.len() == ifs.len() && forall|i: int|
            0 <= i < ifs.len() ==> shifted_expr(#[trigger] ifs[i], f2[i], off, src),
        Expr::DictComp { key, value, target, iter, ifs, span } => b matches Expr::DictComp {
            key: k2,
            value: v2,
            target: t2,
            iter: i2,
            ifs: f2,
            span: s2,
        } && t2 == target && s2 == shifted(span, off, src) && shifted_expr(*key, *k2, off, src)
            && shifted_expr(*value, *v2, off, src) && shifted_expr(*iter, *i2, off, src) && f2.len()
            == ifs.len() && forall|i: int|
            0 <= i < ifs.len() ==> shifted_expr(#[trigger] ifs[i], f2[i], off, src),
    }
}

pub open spec fn shifted_part(a: FStringPart, b: FStringPart, off: usize, src: Seq<char>) -> bool
    decreases a, 0int,
{
    match a {
        FStringPart::Text(t) => b == FStringPart::Text(t),
        FStringPart::Expr(e) => b matches FStringPart::Expr(e2) && shifted_expr(*e, *e2, off, src),
    }
}

pub open spec fn shifted_arg(a: Argument, b: Argument, off: usize, src: Seq<char>) -> bool
    decreases a, 0int,
{
    match a {
        Argument::Positional { value, span } => b matches Argument::Positional { value: v2, span: s2 }
            && s2 == shifted(span, off, src) && shifted_expr(value, v2, off, src),
        Argument::Keyword { name, value, span } => b matches Argument::Keyword {
            name: n2,
            value: v2,
            span: s2,
        } && n2 == name && s2 == shifted(span, off, src) && shifted_expr(value, v2, off, src),
        Argument::Star { value, span } => b matches Argument::Star { value: v2, span: s2 } && s2 == shifted(
            span,
            off,
            src,
        ) && shifted_expr(value, v2, off, src),
        Argument::KwStar { value, span } => b matches Argument::KwStar { value: v2, span: s2 } && s2
            == shifted(span, off, src) && shifted_expr(value, v2, off, src),
    }
}

// ---------------------------------------------------------------------------
// Shifting.

fn shift_leaf(e: Expr, off: usize, source: &str) -> (r: Expr)
    requires
        source@.len() < usize::MAX,
        span_fits(crate::ast::expr_span_of(e), off),
        e is Name || e is Number || e is String || e is Bool || e is NoneLiteral || e is Subprocess
            || e is StructuredAccessor || e is FieldIndex || e is List || e is Tuple || e is Dict
            || e is SetLiteral || e is Slice,
    ensures
        shifted_expr(e, r, off, source@),
{
    match e {
        Expr::Name { name, span } => Expr::Name { name, span: shift_span(&span, off, source) },
        Expr::Number { value, span } => Expr::Number { value, span: shift_span(&span, off, source) },
        Expr::String { value, raw, delimiter, span } => Expr::String {
            value,
            raw,
            delimiter,
            span: shift_span(&span, off, source),
        },
        Expr::Bool { value, span } => Expr::Bool { value, span: shift_span(&span, off, source) },
        Expr::NoneLiteral { span } => Expr::NoneLiteral { span: shift_span(&span, off, source) },
        Expr::Subprocess { kind, parts, span } => Expr::Subprocess {
            kind,
            parts,
            span: shift_span(&span, off, source),
        },
        Expr::StructuredAccessor { query, span } => Expr::StructuredAccessor {
            query,
            span: shift_span(&span, off, source),
        },
        Expr::FieldIndex { index, span } => Expr::FieldIndex { index, span: shift_span(&span, off, source) },
        Expr::List { elements, span } => Expr::List { elements, span: shift_span(&span, off, source) },
        Expr::Tuple { elements, span } => Expr::Tuple { elements, span: shift_span(&span, off, source) },
        Expr::Dict { entries, span } => Expr::Dict { entries, span: shift_span(&span, off, source) },
        Expr::SetLiteral { elements, span } => Expr::SetLiteral {
            elements,
            span: shift_span(&span, off, source),
        },
        Expr::Slice { start, end, span } => Expr::Slice { start, end, span: shift_span(&span, off, source) },
        _ => e,
    }
}

/// An expression with its spans moved `off` bytes into `source`.
fn shift_owned(e: Expr, off: usize, source: &str) -> (r: Expr)
    requires
        source@.len() < usize::MAX,
        expr_fits(e, off),
    ensures
        shifted_expr(e, r, off, source@),
    decreases e,
{
    match e {
        Expr::FString { parts, span } => {
            let sp = shift_span(&span, off, source);
            Expr::FString { parts: shift_parts(parts, off, source), span: sp }
        },
        Expr::Regex { pattern, span } => {
            let sp = shift_span(&span, off, source);
            match pattern {
                RegexPattern::Literal(t) => Expr::Regex { pattern: RegexPattern::Literal(t), span: sp },
                RegexPattern::Interpolated(parts) => Expr::Regex {
                    pattern: RegexPattern::Interpolated(shift_parts(parts, off, source)),
                    span: sp,
                },
            }
        },
        Expr::RegexMatch { value, pattern, span } => {
            let sp = shift_span(&span, off, source);
            Expr::RegexMatch { value: Box::new(shift_owned(*value, off, source)), pattern, span: sp }
        },
        Expr::Unary { op, expr, span } => {
            let sp = shift_span(&span, off, source);
            Expr::Unary { op, expr: Box::new(shift_owned(*expr, off, source)), span: sp }
        },
        Expr::Binary { left, op, right, span } => {
            let sp = shift_span(&span, off, source);
            let l = shift_owned(*left, off, source);
            let r = shift_owned(*right, off, source);
            Expr::Binary { left: Box::new(l), op, right: Box::new(r), span: sp }
        },
        Expr::Compare { left, ops, comparators, span } => {
            let sp = shift_span(&span, off, source);
            let l = shift_owned(*left, off, source);
            Expr::Compare { left: Box::new(l), ops, comparators: shift_exprs(comparators, off, source), span: sp }
        },
        Expr::IfExpr { test, body, orelse, span } => {
            let sp = shift_span(&span, off, source);
            let t = shift_owned(*test, off, source);
            let b = shift_owned(*body, off, source);
            let o = shift_owned(*orelse, off, source);
            Expr::IfExpr { test: Box::new(t), body: Box::new(b), orelse: Box::new(o), span: sp }
        },
        Expr::TryExpr { expr, fallback, span } => {
            let sp = shift_span(&span, off, source);
            let x = shift_owned(*expr, off, source);
            let f = match fallback {
                Some(f) => Some(Box::new(shift_owned(*f, off, source))),
                None => None,
            };
            Expr::TryExpr { expr: Box::new(x), fallback: f, span: sp }
        },
        Expr::Compound { expressions, span } => {
            let sp = shift_span(&span, off, source);
            Expr::Compound { expressions: shift_exprs(expressions, off, source), span: sp }
        },
        Expr::Call { func, args, span } => {
            let sp = shift_span(&span, off, source);
            let f = shift_owned(*func, off, source);
            Expr::Call { func: Box::new(f), args: shift_args(args, off, source), span: sp }
        },
        Expr::Attribute { value, attr, span } => {
            let sp = shift_span(&span, off, source);
            Expr::Attribute { value: Box::new(shift_owned(*value, off, source)), attr, span: sp }
        },
        Expr::Index { value, index, span } => {
            let sp = shift_span(&span, off, source);
            let v = shift_owned(*value, off, source);
            let i = shift_owned(*index, off, source);
            Expr::Index { value: Box::new(v), index: Box::new(i), span: sp }
        },
        Expr::Paren { expr, span } => {
            let sp = shift_span(&span, off, source);
            Expr::Paren { expr: Box::new(shift_owned(*expr, off, source)), span: sp }
        },
        Expr::ListComp { element, target, iter, ifs, span } => {
            let sp = shift_span(&span, off, source);
            let el = shift_owned(*element, off, source);
            let it = shift_owned(*iter, off, source);
            Expr::ListComp {
                element: Box::new(el),
                target,
                iter: Box::new(it),
                ifs: shift_exprs(ifs, off, source),
                span: sp,
            }
        },
        Expr::DictComp { key, value, target, iter, ifs, span } => {
            let sp = shift_span(&span, off, source);
            let k = shift_owned(*key, off, source);
            let v = shift_owned(*value, off, source);
            let it = shift_owned(*iter, off, source);
            Expr::DictComp {
                key: Box::new(k),
                value: Box::new(v),
                target,
                iter: Box::new(it),
                ifs: shift_exprs(ifs, off, source),
                span: sp,
            }
        },
        _ => shift_leaf(e, off, source),
    }
}

#[verifier::loop_isolation(false)]
fn shift_exprs(v: Vec<Expr>, off: usize, source: &str) -> (r: Vec<Expr>)
    requires
        source@.len() < usize::MAX,
        forall|i: int| 0 <= i < v.len() ==> expr_fits(#[trigger] v[i], off),
    ensures
        r.len() == v.len(),
        forall|i: int| 0 <= i < v.len() ==> shifted_expr(#[trigger] v[i], r[i], off, source@),
    decreases v,
{
    let ghost orig = v;
    let mut rest = v;
    let mut out: Vec<Expr> = Vec::new();
    while rest.len() > 0
        invariant
            out.len() + rest.len() == orig.len(),
            rest@ == orig@.subrange(out.len() as int, orig.len() as int),
            source@.len() < usize::MAX,
            forall|i: int| 0 <= i < orig.len() ==> expr_fits(#[trigger] orig[i], off),
            forall|i: int| 0 <= i < out.len() ==> shifted_expr(#[trigger] orig[i], out[i], off, source@),
        decreases rest.len(),
    {
        let k = out.len();
        let e = rest.remove(0);
        assert(e == orig[k as int]);
        proof {
            assert(decreases_to!(orig => orig[k as int]));
        }
        out.push(shift_owned(e, off, source));
        assert(rest@ =~= orig@.subrange(out.len() as int, orig.len() as int));
    }
    out
}

#[verifier::loop_isolation(false)]
fn shift_parts(v: Vec<FStringPart>, off: usize, source: &str) -> (r: Vec<FStringPart>)
    requires
        source@.len() < usize::MAX,
        forall|i: int| 0 <= i < v.len() ==> part_fits(#[trigger] v[i], off),
    ensures
        r.len() == v.len(),
        forall|i: int| 0 <= i < v.len() ==> shifted_part(#[trigger] v[i], r[i], off, source@),
    decreases v,
{
    let ghost orig = v;
    let mut rest = v;
    let mut out: Vec<FStringPart> = Vec::new();
    while rest.len() > 0
        invariant
            out.len() + rest.len() == orig.len(),
            rest@ == orig@.subrange(out.len() as int, orig.len() as int),
            source@.len() < usize::MAX,
            forall|i: int| 0 <= i < orig.len() ==> part_fits(#[trigger] orig[i], off),
            forall|i: int| 0 <= i < out.len() ==> shifted_part(#[trigger] orig[i], out[i], off, source@),
        decreases rest.len(),
    {
        let k = out.len();
        let p = rest.remove(0);
        assert(p == orig[k as int]);
        proof {
            assert(decreases_to!(orig => orig[k as int]));
        }
        let q = match p {
            FStringPart::Text(t) => FStringPart::Text(t),
            FStringPart::Expr(e) => {
                proof {
                    assert(decreases_to!(orig[k as int] => *e));
                }
                FStringPart::Expr(Box::new(shift_owned(*e, off, source)))
            },
        };
        out.push(q);
        assert(rest@ =~= orig@.subrange(out.len() as int, orig.len() as int));
    }
    out
}

fn shift_arg_owned(a: Argument, off: usize, source: &str) -> (r: Argument)
    requires
        source@.len() < usize::MAX,
        arg_fits(a, off),
    ensures
        shifted_arg(a, r, off, source@),
    decreases a,
{
    match a {
        Argument::Positional { value, span } => {
            let sp = shift_span(&span, off, source);
            Argument::Positional { value: shift_owned(value, off, source), span: sp }
        },
        Argument::Keyword { name, value, span } => {
            let sp = shift_span(&span, off, source);
            Argument::Keyword { name, value: shift_owned(value, off, source), span: sp }
        },
        Argument::Star { value, span } => {
            let sp = shift_span(&span, off, source);
            Argument::Star { value: shift_owned(value, off, source), span: sp }
        },
        Argument::KwStar { value, span } => {
            let sp = shift_span(&span, off, source);
            Argument::KwStar { value: shift_owned(value, off, source), span: sp }
        },
    }
}

#[verifier::loop_isolation(false)]
fn shift_args(v: Vec<Argument>, off: usize, source: &str) -> (r: Vec<Argument>)
    requires
        source@.len() < usize::MAX,
        forall|i: int| 0 <= i < v.len() ==> arg_fits(#[trigger] v[i], off),
    ensures
        r.len() == v.len(),
        forall|i: int| 0 <= i < v.len() ==> shifted_arg(#[trigger] v[i], r[i], off, source@),
    decreases v,
{
    let ghost orig = v;
    let mut rest = v;
    let mut out: Vec<Argument> = Vec::new();
    while rest.len() > 0
        invariant
            out.len() + rest.len() == orig.len(),
            rest@ == orig@.subrange(out.len() as int, orig.len() as int),
            source@.len() < usize::MAX,
            forall|i: int| 0 <= i < orig.len() ==> arg_fits(#[trigger] orig[i], off),
            forall|i: int| 0 <= i < out.len() ==> shifted_arg(#[trigger] orig[i], out[i], off, source@),
        decreases rest.len(),
    {
        let k = out.len();
        let a = rest.remove(0);
        assert(a == orig[k as int]);
        proof {
            assert(decreases_to!(orig => orig[k as int]));
        }
        out.push(shift_arg_owned(a, off, source));
        assert(rest@ =~= orig@.subrange(out.len() as int, orig.len() as int));
    }
    out
}

/// Moves the spans of an expression `offset` bytes further into `source`,
/// as for an expression parsed from a piece of text that starts there.
pub fn shift_expr_spans(expr: &mut Expr, offset: usize, source: &str)
    requires
        source@.len() < usize::MAX,
        expr_fits(*old(expr), offset),
    ensures
        shifted_expr(*old(expr), *final(expr), offset, source@),
{
    let mut taken = Expr::NoneLiteral {
        span: SourceSpan {
            start: SourcePos { offset: 0, line: 1, column: 1 },
            end: SourcePos { offset: 0, line: 1, column: 1 },
        },
    };
    std::mem::swap(&mut taken, expr);
    *expr = shift_owned(taken, offset, source);
}

/// Moves the spans of a call argument `offset` bytes further into `source`.
pub fn shift_argument_spans(arg: &mut Argument, offset: usize, source: &str)
    requires
        source@.len() < usize::MAX,
        arg_fits(*old(arg), offset),
    ensures
        shifted_arg(*old(arg), *final(arg), offset, source@),
{
    let mut taken = Argument::Star {
        value: Expr::NoneLiteral {
            span: SourceSpan {
                start: SourcePos { offset: 0, line: 1, column: 1 },
                end: SourcePos { offset: 0, line: 1, column: 1 },
            },
        },
        span: SourceSpan {
            start: SourcePos { offset: 0, line: 1, column: 1 },
            end: SourcePos { offset: 0, line: 1, column: 1 },
        },
    };
    std::mem::swap(&mut taken, arg);
    *arg = shift_arg_owned(taken, offset, source);
}

} // verus!
