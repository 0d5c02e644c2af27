//! Filling the placeholder of a piped call: every `_` name in a lowered
//! expression replaced by the lowered piped value.
use vstd::prelude::*;
use crate::lower::{PLACEHOLDER_NAME, dummy_span};
use crate::lower_stmt::clone_strings;
use crate::pyast::{
    PyArgument, PyCompareOp, PyExpr, PyFStringPart, SpecPyArgument, SpecPyExpr, SpecPyFStringPart,
    view_argument, view_expr, view_exprs, view_fstring_part,
};
use crate::text::str_eq;
use crate::utils::dummy_span as dummy_span_exec;

verus! {

/// `p` with each `_` name replaced by `v` when `replace` holds; `p` itself
/// otherwise.
pub open spec fn fill_spec(p: SpecPyExpr, v: SpecPyExpr, replace: bool) -> SpecPyExpr
    decreases p, 1int,
{
    match p {
        SpecPyExpr::Name { id, span } => if replace && id == PLACEHOLDER_NAME@ {
            v
        } else {
            SpecPyExpr::Name { id, span }
        },
        SpecPyExpr::Number { value, span } => SpecPyExpr::Number { value: value, span: span },
        SpecPyExpr::String { value, raw, delimiter, span } => SpecPyExpr::String { value: value, raw: raw, delimiter: delimiter, span: span },
        SpecPyExpr::FString { parts, span } => SpecPyExpr::FString { parts: fill_fparts(parts, v, replace), span: span },
        SpecPyExpr::Bool { value, span } => SpecPyExpr::Bool { value: value, span: span },
        SpecPyExpr::NoneLiteral { span } => SpecPyExpr::NoneLiteral { span: span },
        SpecPyExpr::Unary { op, operand, span } => SpecPyExpr::Unary { op: op, operand: Box::new(fill_spec(*operand, v, replace)), span: span },
        SpecPyExpr::Binary { left, op, right, span } => SpecPyExpr::Binary { left: Box::new(fill_spec(*left, v, replace)), op: op, right: Box::new(fill_spec(*right, v, replace)), span: span },
        SpecPyExpr::Compare { left, ops, comparators, span } => SpecPyExpr::Compare { left: Box::new(fill_spec(*left, v, replace)), ops: ops, comparators: fill_exprs(comparators, v, replace), span: span },
        SpecPyExpr::IfExpr { test, body, orelse, span } => SpecPyExpr::IfExpr { test: Box::new(fill_spec(*test, v, replace)), body: Box::new(fill_spec(*body, v, replace)), orelse: Box::new(fill_spec(*orelse, v, replace)), span: span },
        SpecPyExpr::Lambda { params, body, span } => SpecPyExpr::Lambda { params: params, body: Box::new(fill_spec(*body, v, replace)), span: span },
        SpecPyExpr::Call { func, args, span } => SpecPyExpr::Call { func: Box::new(fill_spec(*func, v, replace)), args: fill_args(args, v, replace), span: span },
        SpecPyExpr::Attribute { value, attr, span } => SpecPyExpr::Attribute { value: Box::new(fill_spec(*value, v, replace)), attr: attr, span: span },
        SpecPyExpr::Index { value, index, span } => SpecPyExpr::Index { value: Box::new(fill_spec(*value, v, replace)), index: Box::new(fill_spec(*index, v, replace)), span: span },
        SpecPyExpr::Paren { expr, span } => SpecPyExpr::Paren { expr: Box::new(fill_spec(*expr, v, replace)), span: span },
        SpecPyExpr::List { elements, span } => SpecPyExpr::List { elements: fill_exprs(elements, v, replace), span: span },
        SpecPyExpr::Tuple { elements, span } => SpecPyExpr::Tuple { elements: fill_exprs(elements, v, replace), span: span },
        SpecPyExpr::Dict { entries, span } => SpecPyExpr::Dict { entries: fill_entries(entries, v, replace), span: span },
        SpecPyExpr::SetLiteral { elements, span } => SpecPyExpr::SetLiteral { elements: fill_exprs(elements, v, replace), span: span },
        SpecPyExpr::ListComp { element, target, iter, ifs, span } => SpecPyExpr::ListComp { element: Box::new(fill_spec(*element, v, replace)), target: target, iter: Box::new(fill_spec(*iter, v, replace)), ifs: fill_exprs(ifs, v, replace), span: span },
        SpecPyExpr::DictComp { key, value, target, iter, ifs, span } => SpecPyExpr::DictComp { key: Box::new(fill_spec(*key, v, replace)), value: Box::new(fill_spec(*value, v, replace)), target: target, iter: Box::new(fill_spec(*iter, v, replace)), ifs: fill_exprs(ifs, v, replace), span: span },
        SpecPyExpr::Slice { start, end, span } => SpecPyExpr::Slice { start: fill_opt(start, v, replace), end: fill_opt(end, v, replace), span: span },
    }
}

pub open spec fn fill_exprs(s: Seq<SpecPyExpr>, v: SpecPyExpr, replace: bool) -> Seq<SpecPyExpr>
    decreases s, 0int,
{
    Seq::new(s.len(), |i: int| if 0 <= i < s.len() { fill_spec(s[i], v, replace) } else { v })
}

pub open spec fn fill_entries(s: Seq<(SpecPyExpr, SpecPyExpr)>, v: SpecPyExpr, replace: bool) -> Seq<
    (SpecPyExpr, SpecPyExpr),
>
    decreases s, 0int,
{
    Seq::new(
        s.len(),
        |i: int|
            if 0 <= i < s.len() {
                (fill_spec(s[i].0, v, replace), fill_spec(s[i].1, v, replace))
            } else {
                (v, v)
            },
    )
}

pub open spec fn fill_arg(a: SpecPyArgument, v: SpecPyExpr, replace: bool) -> SpecPyArgument
    decreases a, 1int,
{
    match a {
        SpecPyArgument::Positional { value, span } => SpecPyArgument::Positional {
            value: fill_spec(value, v, replace),
            span,
        },
        SpecPyArgument::Keyword { name, value, span } => SpecPyArgument::Keyword {
            name,
            value: fill_spec(value, v, replace),
            span,
        },
        SpecPyArgument::Star { value, span } => SpecPyArgument::Star { value: fill_spec(value, v, replace), span },
        SpecPyArgument::KwStar { value, span } => SpecPyArgument::KwStar {
            value: fill_spec(value, v, replace),
            span,
        },
    }
}

pub open spec fn fill_args(s: Seq<SpecPyArgument>, v: SpecPyExpr, replace: bool) -> Seq<SpecPyArgument>
    decreases s, 0int,
{
    Seq::new(
        s.len(),
        |i: int|
            if 0 <= i < s.len() {
                fill_arg(s[i], v, replace)
            } else {
                SpecPyArgument::Star { value: v, span: dummy_span() }
            },
    )
}

pub open spec fn fill_fpart(p: SpecPyFStringPart, v: SpecPyExpr, replace: bool) -> SpecPyFStringPart
    decreases p, 1int,
{
    match p {
        SpecPyFStringPart::Text(t) => SpecPyFStringPart::Text(t),
        SpecPyFStringPart::Expr(e) => SpecPyFStringPart::Expr(fill_spec(e, v, replace)),
    }
}

pub open spec fn fill_fparts(s: Seq<SpecPyFStringPart>, v: SpecPyExpr, replace: bool) -> Seq<SpecPyFStringPart>
    decreases s, 0int,
{
    Seq::new(s.len(), |i: int| if 0 <= i < s.len() { fill_fpart(s[i], v, replace) } else { SpecPyFStringPart::Text(Seq::empty()) })
}

pub open spec fn fill_opt(o: Option<Box<SpecPyExpr>>, v: SpecPyExpr, replace: bool) -> Option<Box<SpecPyExpr>>
    decreases o, 0int,
{
    match o {
        Some(b) => Some(Box::new(fill_spec(*b, v, replace))),
        None => None,
    }
}

/// Without replacing, filling keeps an expression as it is.
pub proof fn lemma_fill_keeps(p: SpecPyExpr, v: SpecPyExpr)
    ensures
        fill_spec(p, v, false) == p,
    decreases p, 1int,
{
    match p {
        SpecPyExpr::Name { id, span } => {
            assert(fill_spec(p, v, false) == SpecPyExpr::Name { id, span });
        },
        SpecPyExpr::Number { value, span } => {
        },
        SpecPyExpr::String { value, raw, delimiter, span } => {
        },
        SpecPyExpr::FString { parts, span } => {
            lemma_fill_fparts_keep(parts, v);
        },
        SpecPyExpr::Bool { value, span } => {
        },
        SpecPyExpr::NoneLiteral { span } => {
        },
        SpecPyExpr::Unary { op, operand, span } => {
            lemma_fill_keeps(*operand, v);
        },
        SpecPyExpr::Binary { left, op, right, span } => {
            lemma_fill_keeps(*left, v);
            lemma_fill_keeps(*right, v);
        },
        SpecPyExpr::Compare { left, ops, comparators, span } => {
            lemma_fill_keeps(*left, v);
            lemma_fill_exprs_keep(comparators, v);
        },
        SpecPyExpr::IfExpr { test, body, orelse, span } => {
            lemma_fill_keeps(*test, v);
            lemma_fill_keeps(*body, v);
            lemma_fill_keeps(*orelse, v);
        },
        SpecPyExpr::Lambda { params, body, span } => {
            lemma_fill_keeps(*body, v);
        },
        SpecPyExpr::Call { func, args, span } => {
            lemma_fill_keeps(*func, v);
            lemma_fill_args_keep(args, v);
        },
        SpecPyExpr::Attribute { value, attr, span } => {
            lemma_fill_keeps(*value, v);
        },
        SpecPyExpr::Index { value, index, span } => {
            lemma_fill_keeps(*value, v);
            lemma_fill_keeps(*index, v);
        },
        SpecPyExpr::Paren { expr, span } => {
            lemma_fill_keeps(*expr, v);
        },
        SpecPyExpr::List { elements, span } => {
            lemma_fill_exprs_keep(elements, v);
        },
        SpecPyExpr::Tuple { elements, span } => {
            lemma_fill_exprs_keep(elements, v);
        },
        SpecPyExpr::Dict { entries, span } => {
            lemma_fill_entries_keep(entries, v);
        },
        SpecPyExpr::SetLiteral { elements, span } => {
            lemma_fill_exprs_keep(elements, v);
        },
        SpecPyExpr::ListComp { element, target, iter, ifs, span } => {
            lemma_fill_keeps(*element, v);
            lemma_fill_keeps(*iter, v);
            lemma_fill_exprs_keep(ifs, v);
        },
        SpecPyExpr::DictComp { key, value, target, iter, ifs, span } => {
            lemma_fill_keeps(*key, v);
            lemma_fill_keeps(*value, v);
            lemma_fill_keeps(*iter, v);
            lemma_fill_exprs_keep(ifs, v);
        },
        SpecPyExpr::Slice { start, end, span } => {
            if let Some(b) = start {
                lemma_fill_keeps(*b, v);
                assert(fill_opt(start, v, false) == start);
            }
            if let Some(b) = end {
                lemma_fill_keeps(*b, v);
                assert(fill_opt(end, v, false) == end);
            }
        },
    }
}

proof fn lemma_fill_exprs_keep(s: Seq<SpecPyExpr>, v: SpecPyExpr)
    ensures
        fill_exprs(s, v, false) == s,
    decreases s, 0int,
{
    assert forall|i: int| 0 <= i < s.len() implies #[trigger] fill_exprs(s, v, false)[i] == s[i] by {
        lemma_fill_keeps(s[i], v);
    }
    assert(fill_exprs(s, v, false) =~= s);
}

proof fn lemma_fill_entries_keep(s: Seq<(SpecPyExpr, SpecPyExpr)>, v: SpecPyExpr)
    ensures
        fill_entries(s, v, false) == s,
    decreases s, 0int,
{
    assert forall|i: int| 0 <= i < s.len() implies #[trigger] fill_entries(s, v, false)[i] == s[i] by {
        lemma_fill_keeps(s[i].0, v);
        lemma_fill_keeps(s[i].1, v);
    }
    assert(fill_entries(s, v, false) =~= s);
}

proof fn lemma_fill_arg_keeps(a: SpecPyArgument, v: SpecPyExpr)
    ensures
        fill_arg(a, v, false) == a,
    decreases a, 1int,
{
    match a {
        SpecPyArgument::Positional { value, .. } => lemma_fill_keeps(value, v),
        SpecPyArgument::Keyword { value, .. } => lemma_fill_keeps(value, v),
        SpecPyArgument::Star { value, .. } => lemma_fill_keeps(value, v),
        SpecPyArgument::KwStar { value, .. } => lemma_fill_keeps(value, v),
    }
}

proof fn lemma_fill_args_keep(s: Seq<SpecPyArgument>, v: SpecPyExpr)
    ensures
        fill_args(s, v, false) == s,
    decreases s, 0int,
{
    assert forall|i: int| 0 <= i < s.len() implies #[trigger] fill_args(s, v, false)[i] == s[i] by {
        lemma_fill_arg_keeps(s[i], v);
    }
    assert(fill_args(s, v, false) =~= s);
}

proof fn lemma_fill_fparts_keep(s: Seq<SpecPyFStringPart>, v: SpecPyExpr)
    ensures
        fill_fparts(s, v, false) == s,
    decreases s, 0int,
{
    assert forall|i: int| 0 <= i < s.len() implies #[trigger] fill_fparts(s, v, false)[i] == s[i] by {
        match s[i] {
            SpecPyFStringPart::Text(_) => {},
            SpecPyFStringPart::Expr(e) => lemma_fill_keeps(e, v),
        }
    }
    assert(fill_fparts(s, v, false) =~= s);
}

/// A lowered expression with each `_` name replaced by a copy of `v` when
/// `replace` holds; a copy of it otherwise.
pub fn fill_placeholders(p: &PyExpr, v: &PyExpr, replace: bool) -> (r: PyExpr)
    ensures
        r@ == fill_spec(p@, v@, replace),
    decreases (if replace { 1int } else { 0int }), p, 1int,
{
    match p {
        PyExpr::Name { id, span } => {
            if replace && str_eq(id.as_str(), PLACEHOLDER_NAME) {
                let r = fill_placeholders(v, v, false);
                proof {
                    lemma_fill_keeps(v@, v@);
                }
                r
            } else {
                PyExpr::Name { id: id.clone(), span: *span }
            }
        },
        PyExpr::Number { value, span } => PyExpr::Number { value: value.clone(), span: *span },
        PyExpr::String { value, raw, delimiter, span } => PyExpr::String { value: value.clone(), raw: *raw, delimiter: *delimiter, span: *span },
        PyExpr::FString { .. } => fill_f_string(p, v, replace),
        PyExpr::Bool { value, span } => PyExpr::Bool { value: *value, span: *span },
        PyExpr::NoneLiteral { span } => PyExpr::NoneLiteral { span: *span },
        PyExpr::Unary { .. } => fill_unary(p, v, replace),
        PyExpr::Binary { .. } => fill_binary(p, v, replace),
        PyExpr::Compare { .. } => fill_compare(p, v, replace),
        PyExpr::IfExpr { .. } => fill_if_expr(p, v, replace),
        PyExpr::Lambda { .. } => fill_lambda(p, v, replace),
        PyExpr::Call { .. } => fill_call(p, v, replace),
        PyExpr::Attribute { .. } => fill_attribute(p, v, replace),
        PyExpr::Index { .. } => fill_index(p, v, replace),
        PyExpr::Paren { .. } => fill_paren(p, v, replace),
        PyExpr::List { .. } => fill_list(p, v, replace),
        PyExpr::Tuple { .. } => fill_tuple(p, v, replace),
        PyExpr::Dict { .. } => fill_dict(p, v, replace),
        PyExpr::SetLiteral { .. } => fill_set_literal(p, v, replace),
        PyExpr::ListComp { .. } => fill_list_comp(p, v, replace),
        PyExpr::DictComp { .. } => fill_dict_comp(p, v, replace),
        PyExpr::Slice { .. } => fill_slice(p, v, replace),
    }
}

fn fill_f_string(p: &PyExpr, v: &PyExpr, replace: bool) -> (r: PyExpr)
    requires
        *p is FString,
    ensures
        r@ == fill_spec(p@, v@, replace),
    decreases (if replace { 1int } else { 0int }), p, 0int,
{
    match p {
        PyExpr::FString { parts, span } => {
            let n_parts = fill_fpart_vec(parts, v, replace);
            let n_span = *span;
            let ghost g_parts = n_parts@;
            let r = PyExpr::FString { parts: n_parts, span: n_span };
            assert forall|i: int| 0 <= i < g_parts.len() implies r@->FString_parts[i] == fill_fparts(p@->FString_parts, v@, replace)[i] by {
                assert(view_fstring_part(g_parts[i]) == fill_fpart(view_fstring_part(parts[i]), v@, replace));
            }
            assert(r@->FString_parts =~= fill_fparts(p@->FString_parts, v@, replace));
            r
        },
        _ => PyExpr::Bool { value: false, span: dummy_span_exec() },
    }
}

fn fill_unary(p: &PyExpr, v: &PyExpr, replace: bool) -> (r: PyExpr)
    requires
        *p is Unary,
    ensures
        r@ == fill_spec(p@, v@, replace),
    decreases (if replace { 1int } else { 0int }), p, 0int,
{
    match p {
        PyExpr::Unary { op, operand, span } => PyExpr::Unary { op: *op, operand: Box::new(fill_placeholders(&**operand, v, replace)), span: *span },
        _ => PyExpr::Bool { value: false, span: dummy_span_exec() },
    }
}

fn fill_binary(p: &PyExpr, v: &PyExpr, replace: bool) -> (r: PyExpr)
    requires
        *p is Binary,
    ensures
        r@ == fill_spec(p@, v@, replace),
    decreases (if replace { 1int } else { 0int }), p, 0int,
{
    match p {
        PyExpr::Binary { left, op, right, span } => PyExpr::Binary { left: Box::new(fill_placeholders(&**left, v, replace)), op: *op, right: Box::new(fill_placeholders(&**right, v, replace)), span: *span },
        _ => PyExpr::Bool { value: false, span: dummy_span_exec() },
    }
}

fn fill_compare(p: &PyExpr, v: &PyExpr, replace: bool) -> (r: PyExpr)
    requires
        *p is Compare,
    ensures
        r@ == fill_spec(p@, v@, replace),
    decreases (if replace { 1int } else { 0int }), p, 0int,
{
    match p {
        PyExpr::Compare { left, ops, comparators, span } => {
            let n_left = Box::new(fill_placeholders(&**left, v, replace));
            let n_ops = copy_ops(ops);
            let n_comparators = fill_expr_vec(comparators, v, replace);
            let n_span = *span;
            let ghost g_comparators = n_comparators@;
            let ghost gv_comparators = view_exprs(n_comparators);
            let r = PyExpr::Compare { left: n_left, ops: n_ops, comparators: n_comparators, span: n_span };
            assert(r@->Compare_comparators == gv_comparators);
            assert(p@->Compare_comparators == view_exprs(*comparators));
            assert forall|i: int| 0 <= i < g_comparators.len() implies r@->Compare_comparators[i] == fill_exprs(p@->Compare_comparators, v@, replace)[i] by {
                assert(gv_comparators[i] == g_comparators[i]@); assert(g_comparators[i]@ == fill_spec(comparators[i]@, v@, replace));
            }
            assert(r@->Compare_comparators =~= fill_exprs(p@->Compare_comparators, v@, replace));
            r
        },
        _ => PyExpr::Bool { value: false, span: dummy_span_exec() },
    }
}

fn fill_if_expr(p: &PyExpr, v: &PyExpr, replace: bool) -> (r: PyExpr)
    requires
        *p is IfExpr,
    ensures
        r@ == fill_spec(p@, v@, replace),
    decreases (if replace { 1int } else { 0int }), p, 0int,
{
    match p {
        PyExpr::IfExpr { test, body, orelse, span } => PyExpr::IfExpr { test: Box::new(fill_placeholders(&**test, v, replace)), body: Box::new(fill_placeholders(&**body, v, replace)), orelse: Box::new(fill_placeholders(&**orelse, v, replace)), span: *span },
        _ => PyExpr::Bool { value: false, span: dummy_span_exec() },
    }
}

fn fill_lambda(p: &PyExpr, v: &PyExpr, replace: bool) -> (r: PyExpr)
    requires
        *p is Lambda,
    ensures
        r@ == fill_spec(p@, v@, replace),
    decreases (if replace { 1int } else { 0int }), p, 0int,
{
    match p {
        PyExpr::Lambda { params, body, span } => PyExpr::Lambda { params: clone_strings(params), body: Box::new(fill_placeholders(&**body, v, replace)), span: *span },
        _ => PyExpr::Bool { value: false, span: dummy_span_exec() },
    }
}

fn fill_call(p: &PyExpr, v: &PyExpr, replace: bool) -> (r: PyExpr)
    requires
        *p is Call,
    ensures
        r@ == fill_spec(p@, v@, replace),
    decreases (if replace { 1int } else { 0int }), p, 0int,
{
    match p {
        PyExpr::Call { func, args, span } => {
            let n_func = Box::new(fill_placeholders(&**func, v, replace));
            let n_args = fill_arg_vec(args, v, replace);
            let n_span = *span;
            let ghost g_args = n_args@;
            let r = PyExpr::Call { func: n_func, args: n_args, span: n_span };
            assert forall|i: int| 0 <= i < g_args.len() implies r@->Call_args[i] == fill_args(p@->Call_args, v@, replace)[i] by {
                assert(view_argument(g_args[i]) == fill_arg(view_argument(args[i]), v@, replace));
            }
            assert(r@->Call_args =~= fill_args(p@->Call_args, v@, replace));
            r
        },
        _ => PyExpr::Bool { value: false, span: dummy_span_exec() },
    }
}

fn fill_attribute(p: &PyExpr, v: &PyExpr, replace: bool) -> (r: PyExpr)
    requires
        *p is Attribute,
    ensures
        r@ == fill_spec(p@, v@, replace),
    decreases (if replace { 1int } else { 0int }), p, 0int,
{
    match p {
        PyExpr::Attribute { value, attr, span } => PyExpr::Attribute { value: Box::new(fill_placeholders(&**value, v, replace)), attr: attr.clone(), span: *span },
        _ => PyExpr::Bool { value: false, span: dummy_span_exec() },
    }
}

fn fill_index(p: &PyExpr, v: &PyExpr, replace: bool) -> (r: PyExpr)
    requires
        *p is Index,
    ensures
        r@ == fill_spec(p@, v@, replace),
    decreases (if replace { 1int } else { 0int }), p, 0int,
{
    match p {
        PyExpr::Index { value, index, span } => PyExpr::Index { value: Box::new(fill_placeholders(&**value, v, replace)), index: Box::new(fill_placeholders(&**index, v, replace)), span: *span },
        _ => PyExpr::Bool { value: false, span: dummy_span_exec() },
    }
}

fn fill_paren(p: &PyExpr, v: &PyExpr, replace: bool) -> (r: PyExpr)
    requires
        *p is Paren,
    ensures
        r@ == fill_spec(p@, v@, replace),
    decreases (if replace { 1int } else { 0int }), p, 0int,
{
    match p {
        PyExpr::Paren { expr, span } => PyExpr::Paren { expr: Box::new(fill_placeholders(&**expr, v, replace)), span: *span },
        _ => PyExpr::Bool { value: false, span: dummy_span_exec() },
    }
}

fn fill_list(p: &PyExpr, v: &PyExpr, replace: bool) -> (r: PyExpr)
    requires
        *p is List,
    ensures
        r@ == fill_spec(p@, v@, replace),
    decreases (if replace { 1int } else { 0int }), p, 0int,
{
    match p {
        PyExpr::List { elements, span } => {
            let n_elements = fill_expr_vec(elements, v, replace);
            let n_span = *span;
            let ghost g_elements = n_elements@;
            let ghost gv_elements = view_exprs(n_elements);
            let r = PyExpr::List { elements: n_elements, span: n_span };
            assert(r@->List_elements == gv_elements);
            assert(p@->List_elements == view_exprs(*elements));
            assert forall|i: int| 0 <= i < g_elements.len() implies r@->List_elements[i] == fill_exprs(p@->List_elements, v@, replace)[i] by {
                assert(gv_elements[i] == g_elements[i]@); assert(g_elements[i]@ == fill_spec(elements[i]@, v@, replace));
            }
            assert(r@->List_elements =~= fill_exprs(p@->List_elements, v@, replace));
            r
        },
        _ => PyExpr::Bool { value: false, span: dummy_span_exec() },
    }
}

fn fill_tuple(p: &PyExpr, v: &PyExpr, replace: bool) -> (r: PyExpr)
    requires
        *p is Tuple,
    ensures
        r@ == fill_spec(p@, v@, replace),
    decreases (if replace { 1int } else { 0int }), p, 0int,
{
    match p {
        PyExpr::Tuple { elements, span } => {
            let n_elements = fill_expr_vec(elements, v, replace);
            let n_span = *span;
            let ghost g_elements = n_elements@;
            let ghost gv_elements = view_exprs(n_elements);
            let r = PyExpr::Tuple { elements: n_elements, span: n_span };
            assert(r@->Tuple_elements == gv_elements);
            assert(p@->Tuple_elements == view_exprs(*elements));
            assert forall|i: int| 0 <= i < g_elements.len() implies r@->Tuple_elements[i] == fill_exprs(p@->Tuple_elements, v@, replace)[i] by {
                assert(gv_elements[i] == g_elements[i]@); assert(g_elements[i]@ == fill_spec(elements[i]@, v@, replace));
            }
            assert(r@->Tuple_elements =~= fill_exprs(p@->Tuple_elements, v@, replace));
            r
        },
        _ => PyExpr::Bool { value: false, span: dummy_span_exec() },
    }
}

fn fill_dict(p: &PyExpr, v: &PyExpr, replace: bool) -> (r: PyExpr)
    requires
        *p is Dict,
    ensures
        r@ == fill_spec(p@, v@, replace),
    decreases (if replace { 1int } else { 0int }), p, 0int,
{
    match p {
        PyExpr::Dict { entries, span } => {
            let n_entries = fill_entry_vec(entries, v, replace);
            let n_span = *span;
            let ghost g_entries = n_entries@;
            let r = PyExpr::Dict { entries: n_entries, span: n_span };
            assert forall|i: int| 0 <= i < g_entries.len() implies r@->Dict_entries[i] == fill_entries(p@->Dict_entries, v@, replace)[i] by {
                assert(g_entries[i].0@ == fill_spec(entries[i].0@, v@, replace));
            }
            assert(r@->Dict_entries =~= fill_entries(p@->Dict_entries, v@, replace));
            r
        },
        _ => PyExpr::Bool { value: false, span: dummy_span_exec() },
    }
}

fn fill_set_literal(p: &PyExpr, v: &PyExpr, replace: bool) -> (r: PyExpr)
    requires
        *p is SetLiteral,
    ensures
        r@ == fill_spec(p@, v@, replace),
    decreases (if replace { 1int } else { 0int }), p, 0int,
{
    match p {
        PyExpr::SetLiteral { elements, span } => {
            let n_elements = fill_expr_vec(elements, v, replace);
            let n_span = *span;
            let ghost g_elements = n_elements@;
            let ghost gv_elements = view_exprs(n_elements);
            let r = PyExpr::SetLiteral { elements: n_elements, span: n_span };
            assert(r@->SetLiteral_elements == gv_elements);
            assert(p@->SetLiteral_elements == view_exprs(*elements));
            assert forall|i: int| 0 <= i < g_elements.len() implies r@->SetLiteral_elements[i] == fill_exprs(p@->SetLiteral_elements, v@, replace)[i] by {
                assert(gv_elements[i] == g_elements[i]@); assert(g_elements[i]@ == fill_spec(elements[i]@, v@, replace));
            }
            assert(r@->SetLiteral_elements =~= fill_exprs(p@->SetLiteral_elements, v@, replace));
            r
        },
        _ => PyExpr::Bool { value: false, span: dummy_span_exec() },
    }
}

fn fill_list_comp(p: &PyExpr, v: &PyExpr, replace: bool) -> (r: PyExpr)
    requires
        *p is ListComp,
    ensures
        r@ == fill_spec(p@, v@, replace),
    decreases (if replace { 1int } else { 0int }), p, 0int,
{
    match p {
        PyExpr::ListComp { element, target, iter, ifs, span } => {
            let n_element = Box::new(fill_placeholders(&**element, v, replace));
            let n_target = target.clone();
            let n_iter = Box::new(fill_placeholders(&**iter, v, replace));
            let n_ifs = fill_expr_vec(ifs, v, replace);
            let n_span = *span;
            let ghost g_ifs = n_ifs@;
            let ghost gv_ifs = view_exprs(n_ifs);
            let r = PyExpr::ListComp { element: n_element, target: n_target, iter: n_iter, ifs: n_ifs, span: n_span };
            assert(r@->ListComp_ifs == gv_ifs);
            assert(p@->ListComp_ifs == view_exprs(*ifs));
            assert forall|i: int| 0 <= i < g_ifs.len() implies r@->ListComp_ifs[i] == fill_exprs(p@->ListComp_ifs, v@, replace)[i] by {
                assert(gv_ifs[i] == g_ifs[i]@); assert(g_ifs[i]@ == fill_spec(ifs[i]@, v@, replace));
            }
            assert(r@->ListComp_ifs =~= fill_exprs(p@->ListComp_ifs, v@, replace));
            r
        },
        _ => PyExpr::Bool { value: false, span: dummy_span_exec() },
    }
}

fn fill_dict_comp(p: &PyExpr, v: &PyExpr, replace: bool) -> (r: PyExpr)
    requires
        *p is DictComp,
    ensures
        r@ == fill_spec(p@, v@, replace),
    decreases (if replace { 1int } else { 0int }), p, 0int,
{
    match p {
        PyExpr::DictComp { key, value, target, iter, ifs, span } => {
            let n_key = Box::new(fill_placeholders(&**key, v, replace));
            let n_value = Box::new(fill_placeholders(&**value, v, replace));
            let n_target = target.clone();
            let n_iter = Box::new(fill_placeholders(&**iter, v, replace));
            let n_ifs = fill_expr_vec(ifs, v, replace);
            let n_span = *span;
            let ghost g_ifs = n_ifs@;
            let ghost gv_ifs = view_exprs(n_ifs);
            let r = PyExpr::DictComp { key: n_key, value: n_value, target: n_target, iter: n_iter, ifs: n_ifs, span: n_span };
            assert(r@->DictComp_ifs == gv_ifs);
            assert(p@->DictComp_ifs == view_exprs(*ifs));
            assert forall|i: int| 0 <= i < g_ifs.len() implies r@->DictComp_ifs[i] == fill_exprs(p@->DictComp_ifs, v@, replace)[i] by {
                assert(gv_ifs[i] == g_ifs[i]@); assert(g_ifs[i]@ == fill_spec(ifs[i]@, v@, replace));
            }
            assert(r@->DictComp_ifs =~= fill_exprs(p@->DictComp_ifs, v@, replace));
            r
        },
        _ => PyExpr::Bool { value: false, span: dummy_span_exec() },
    }
}

fn fill_slice(p: &PyExpr, v: &PyExpr, replace: bool) -> (r: PyExpr)
    requires
        *p is Slice,
    ensures
        r@ == fill_spec(p@, v@, replace),
    decreases (if replace { 1int } else { 0int }), p, 0int,
{
    match p {
        PyExpr::Slice { start, end, span } => {
            let s2 = fill_opt_box(start, v, replace);
            let e2 = fill_opt_box(end, v, replace);
            let r = PyExpr::Slice { start: s2, end: e2, span: *span };
            r
        },
        _ => PyExpr::Bool { value: false, span: dummy_span_exec() },
    }
}


pub open spec fn view_opt_box(o: Option<Box<PyExpr>>) -> Option<Box<SpecPyExpr>> {
    match o {
        Some(b) => Some(Box::new(view_expr(*b))),
        None => None,
    }
}

fn fill_opt_box(o: &Option<Box<PyExpr>>, v: &PyExpr, replace: bool) -> (r: Option<Box<PyExpr>>)
    ensures
        view_opt_box(r) == fill_opt(view_opt_box(*o), v@, replace),
    decreases (if replace { 1int } else { 0int }), o, 0int,
{
    match o {
        Some(b) => Some(Box::new(fill_placeholders(&**b, v, replace))),
        None => None,
    }
}


fn copy_ops(s: &Vec<PyCompareOp>) -> (r: Vec<PyCompareOp>)
    ensures
        r@ == s@,
{
    let mut out: Vec<PyCompareOp> = Vec::new();
    let mut i: usize = 0;
    while i < s.len()
        invariant
            i <= s.len(),
            out@ == s@.take(i as int),
        decreases s.len() - i,
    {
        out.push(s[i]);
        i += 1;
        assert(s@.take(i as int) =~= s@.take(i - 1).push(s@[i - 1]));
    }
    assert(s@.take(s.len() as int) =~= s@);
    out
}

fn fill_expr_vec(s: &Vec<PyExpr>, v: &PyExpr, replace: bool) -> (r: Vec<PyExpr>)
    ensures
        r.len() == s.len(),
        forall|i: int| 0 <= i < s.len() ==> #[trigger] r[i]@ == fill_spec(s[i]@, v@, replace),
    decreases (if replace { 1int } else { 0int }), s, 0int,
{
    let mut out: Vec<PyExpr> = Vec::new();
    let mut i: usize = 0;
    while i < s.len()
        invariant
            i <= s.len(),
            out.len() == i,
            forall|j: int| 0 <= j < i ==> #[trigger] out[j]@ == fill_spec(s[j]@, v@, replace),
        decreases s.len() - i,
    {
        proof {
            assert(decreases_to!(*s => s[i as int]));
        }
        out.push(fill_placeholders(&s[i], v, replace));
        i += 1;
    }
    out
}

fn fill_entry_vec(s: &Vec<(PyExpr, PyExpr)>, v: &PyExpr, replace: bool) -> (r: Vec<(PyExpr, PyExpr)>)
    ensures
        r.len() == s.len(),
        forall|i: int| 0 <= i < s.len() ==> #[trigger] r[i].0@ == fill_spec(s[i].0@, v@, replace)
            && r[i].1@ == fill_spec(s[i].1@, v@, replace),
    decreases (if replace { 1int } else { 0int }), s, 0int,
{
    let mut out: Vec<(PyExpr, PyExpr)> = Vec::new();
    let mut i: usize = 0;
    while i < s.len()
        invariant
            i <= s.len(),
            out.len() == i,
            forall|j: int| 0 <= j < i ==> #[trigger] out[j].0@ == fill_spec(s[j].0@, v@, replace)
                && out[j].1@ == fill_spec(s[j].1@, v@, replace),
        decreases s.len() - i,
    {
        proof {
            assert(decreases_to!(*s => s[i as int]));
            assert(decreases_to!(s[i as int] => s[i as int].0));
            assert(decreases_to!(s[i as int] => s[i as int].1));
        }
        let a = fill_placeholders(&s[i].0, v, replace);
        let b = fill_placeholders(&s[i].1, v, replace);
        out.push((a, b));
        i += 1;
    }
    out
}

pub(crate) fn fill_arg_vec(s: &Vec<PyArgument>, v: &PyExpr, replace: bool) -> (r: Vec<PyArgument>)
    ensures
        r.len() == s.len(),
        forall|i: int| 0 <= i < s.len() ==> #[trigger] view_argument(r[i]) == fill_arg(view_argument(s[i]), v@, replace),
    decreases (if replace { 1int } else { 0int }), s, 0int,
{
    let mut out: Vec<PyArgument> = Vec::new();
    let mut i: usize = 0;
    while i < s.len()
        invariant
            i <= s.len(),
            out.len() == i,
            forall|j: int| 0 <= j < i ==> #[trigger] view_argument(out[j]) == fill_arg(view_argument(s[j]), v@, replace),
        decreases s.len() - i,
    {
        proof {
            assert(decreases_to!(*s => s[i as int]));
        }
        let a = match &s[i] {
            PyArgument::Positional { value, span } => PyArgument::Positional {
                value: fill_placeholders(value, v, replace),
                span: *span,
            },
            PyArgument::Keyword { name, value, span } => PyArgument::Keyword {
                name: name.clone(),
                value: fill_placeholders(value, v, replace),
                span: *span,
            },
            PyArgument::Star { value, span } => PyArgument::Star {
                value: fill_placeholders(value, v, replace),
                span: *span,
            },
            PyArgument::KwStar { value, span } => PyArgument::KwStar {
                value: fill_placeholders(value, v, replace),
                span: *span,
            },
        };
        out.push(a);
        i += 1;
    }
    out
}

fn fill_fpart_vec(s: &Vec<PyFStringPart>, v: &PyExpr, replace: bool) -> (r: Vec<PyFStringPart>)
    ensures
        r.len() == s.len(),
        forall|i: int| 0 <= i < s.len() ==> #[trigger] view_fstring_part(r[i]) == fill_fpart(view_fstring_part(s[i]), v@, replace),
    decreases (if replace { 1int } else { 0int }), s, 0int,
{
    let mut out: Vec<PyFStringPart> = Vec::new();
    let mut i: usize = 0;
    while i < s.len()
        invariant
            i <= s.len(),
            out.len() == i,
            forall|j: int| 0 <= j < i ==> #[trigger] view_fstring_part(out[j]) == fill_fpart(view_fstring_part(s[j]), v@, replace),
        decreases s.len() - i,
    {
        proof {
            assert(decreases_to!(*s => s[i as int]));
        }
        let part = match &s[i] {
            PyFStringPart::Text(t) => PyFStringPart::Text(t.clone()),
            PyFStringPart::Expr(e) => PyFStringPart::Expr(fill_placeholders(e, v, replace)),
        };
        out.push(part);
        i += 1;
    }
    out
}

} // verus!
