//! How Snail writes its operators, and the laws that lowering an operator
//! and writing the Python text back keeps its meaning: the operator that
//! comes out is written as the one that went in.
use vstd::prelude::*;
use crate::ast::{BinaryOp, CompareOp, Expr, UnaryOp};
use crate::emit_expr::{binary_op_text, compare_op_text, unary_op_text};
use crate::lower::{lower_binary_spec, lower_compare_spec, lower_expr_spec, lower_unary_spec};
use crate::pyast::SpecPyExpr;

verus! {

/// How a comparison operator is written in Snail source.
pub open spec fn compare_spelling(op: CompareOp) -> Seq<char> {
    match op {
        CompareOp::Eq => "=="@,
        CompareOp::NotEq => "!="@,
        CompareOp::Lt => "<"@,
        CompareOp::LtEq => "<="@,
        CompareOp::Gt => ">"@,
        CompareOp::GtEq => ">="@,
        CompareOp::In => "in"@,
        CompareOp::Is => "is"@,
    }
}

/// How a binary operator is written in Snail source.
pub open spec fn binary_spelling(op: BinaryOp) -> Seq<char> {
    match op {
        BinaryOp::Or => "or"@,
        BinaryOp::And => "and"@,
        BinaryOp::Add => "+"@,
        BinaryOp::Sub => "-"@,
        BinaryOp::Mul => "*"@,
        BinaryOp::Div => "/"@,
        BinaryOp::FloorDiv => "//"@,
        BinaryOp::Mod => "%"@,
        BinaryOp::Pow => "**"@,
        BinaryOp::Pipeline => "|"@,
    }
}

/// How a unary operator is written in Snail source.
pub open spec fn unary_spelling(op: UnaryOp) -> Seq<char> {
    match op {
        UnaryOp::Plus => "+"@,
        UnaryOp::Minus => "-"@,
        UnaryOp::Not => "not"@,
    }
}

/// A comparison keeps its operator: the Python text of the lowered operator
/// is the Snail operator's own spelling (`!=` stays `!=`, `in` stays `in`),
/// so two different operators never lower to the same one.
pub proof fn lemma_compare_keeps_operator(op: CompareOp, other: CompareOp)
    ensures
        compare_op_text(lower_compare_spec(op)) == compare_spelling(op),
        lower_compare_spec(op) == lower_compare_spec(other) ==> op == other,
{
    reveal_strlit("==");
    reveal_strlit("!=");
    reveal_strlit("<");
    reveal_strlit("<=");
    reveal_strlit(">");
    reveal_strlit(">=");
    reveal_strlit("in");
    reveal_strlit("is");
}

/// A binary operator other than the pipeline, which becomes a call, keeps
/// its meaning: the Python text of the lowered operator is the Snail
/// operator's own spelling, and different operators stay different.
pub proof fn lemma_binary_keeps_operator(op: BinaryOp, other: BinaryOp)
    requires
        op != BinaryOp::Pipeline,
        other != BinaryOp::Pipeline,
    ensures
        binary_op_text(lower_binary_spec(op)) == binary_spelling(op),
        lower_binary_spec(op) == lower_binary_spec(other) ==> op == other,
{
    reveal_strlit("or");
    reveal_strlit("and");
    reveal_strlit("+");
    reveal_strlit("-");
    reveal_strlit("*");
    reveal_strlit("/");
    reveal_strlit("//");
    reveal_strlit("%");
    reveal_strlit("**");
}

/// A unary operator keeps its meaning: the Python text of the lowered
/// operator starts with the Snail operator's spelling (`not` is followed by
/// a space), and different operators stay different.
pub proof fn lemma_unary_keeps_operator(op: UnaryOp, other: UnaryOp)
    ensures
        unary_op_text(lower_unary_spec(op)).len() >= unary_spelling(op).len(),
        unary_op_text(lower_unary_spec(op)).take(unary_spelling(op).len() as int) == unary_spelling(op),
        lower_unary_spec(op) == lower_unary_spec(other) ==> op == other,
{
    reveal_strlit("+");
    reveal_strlit("-");
    reveal_strlit("not");
    reveal_strlit("not ");
    assert("+"@.take(1) =~= "+"@);
    assert("-"@.take(1) =~= "-"@);
    assert("not "@.take(3) =~= "not"@);
}


/// An operator expression lowers to the Python expression of the same shape:
/// each operand is the lowered operand in its own place, and the operator
/// is written as in the source.
#[verifier::rlimit(40)]
pub proof fn lemma_operator_expressions_keep_their_parts(e: Expr, exc: Option<Seq<char>>)
    ensures
        e matches Expr::Unary { op, expr, .. } ==> {
            let r = lower_expr_spec(e, exc);
            &&& r is Unary
            &&& *r->Unary_operand == lower_expr_spec(*expr, exc)
            &&& unary_op_text(r->Unary_op).take(unary_spelling(op).len() as int) == unary_spelling(op)
        },
        e matches Expr::Binary { left, op, right, .. } ==> (op != BinaryOp::Pipeline ==> {
            let r = lower_expr_spec(e, exc);
            &&& r is Binary
            &&& *r->Binary_left == lower_expr_spec(*left, exc)
            &&& *r->Binary_right == lower_expr_spec(*right, exc)
            &&& binary_op_text(r->Binary_op) == binary_spelling(op)
        }),
        e matches Expr::Compare { left, ops, comparators, .. } ==> {
            let r = lower_expr_spec(e, exc);
            &&& r is Compare
            &&& *r->Compare_left == lower_expr_spec(*left, exc)
            &&& r->Compare_ops.len() == ops.len()
            &&& forall|i: int| 0 <= i < ops.len() ==> compare_op_text(#[trigger] r->Compare_ops[i]) == compare_spelling(ops[i])
            &&& r->Compare_comparators.len() == comparators.len()
            &&& forall|i: int| 0 <= i < comparators.len() ==> #[trigger] r->Compare_comparators[i] == lower_expr_spec(comparators[i], exc)
        },

{
    match e {
        Expr::Unary { op, .. } => lemma_unary_keeps_operator(op, op),
        Expr::Binary { op, .. } => if op != BinaryOp::Pipeline {
            lemma_binary_keeps_operator(op, op);
        },
        Expr::Compare { ops, comparators, .. } => {
            assert(lower_expr_spec(e, exc)->Compare_comparators == crate::lower::lower_exprs_spec(comparators, exc));
            assert forall|i: int| 0 <= i < ops.len() implies compare_op_text(
                #[trigger] lower_expr_spec(e, exc)->Compare_ops[i],
            ) == compare_spelling(ops[i]) by {
                lemma_compare_keeps_operator(ops[i], ops[i]);
            }
        },
        _ => {},
    }
}


/// A conditional, a call, an attribute and an index lower to the Python
/// expression of the same kind, with each part the lowered part in its own
/// place and the attribute's name kept.
#[verifier::rlimit(40)]
pub proof fn lemma_compound_expressions_keep_their_parts(e: Expr, exc: Option<Seq<char>>)
    ensures
        e matches Expr::IfExpr { test, body, orelse, .. } ==> {
            let r = lower_expr_spec(e, exc);
            &&& r is IfExpr
            &&& *r->IfExpr_test == lower_expr_spec(*test, exc)
            &&& *r->IfExpr_body == lower_expr_spec(*body, exc)
            &&& *r->IfExpr_orelse == lower_expr_spec(*orelse, exc)
        },
        e matches Expr::Call { func, args, .. } ==> {
            let r = lower_expr_spec(e, exc);
            &&& r is Call
            &&& *r->Call_func == lower_expr_spec(*func, exc)
            &&& r->Call_args.len() == args.len()
        },
        e matches Expr::Attribute { value, attr, .. } ==> {
            let r = lower_expr_spec(e, exc);
            &&& r is Attribute
            &&& *r->Attribute_value == lower_expr_spec(*value, exc)
            &&& r->Attribute_attr == attr@
        },
        e matches Expr::Index { value, index, .. } ==> {
            let r = lower_expr_spec(e, exc);
            &&& r is Index
            &&& *r->Index_value == lower_expr_spec(*value, exc)
            &&& *r->Index_index == lower_expr_spec(*index, exc)
        },
{
    if let Expr::Call { func, args, .. } = e {
        assert(lower_expr_spec(e, exc)->Call_args == crate::lower::lower_args_spec(args, exc));
    }
}

/// A list or tuple lowers to one of the same kind, element for element.
#[verifier::rlimit(40)]
pub proof fn lemma_collections_keep_their_elements(e: Expr, exc: Option<Seq<char>>)
    ensures
        e matches Expr::List { elements, .. } ==> {
            let r = lower_expr_spec(e, exc);
            &&& r is List
            &&& r->List_elements.len() == elements.len()
            &&& forall|i: int| 0 <= i < elements.len() ==> #[trigger] r->List_elements[i] == lower_expr_spec(elements[i], exc)
        },
        e matches Expr::Tuple { elements, .. } ==> {
            let r = lower_expr_spec(e, exc);
            &&& r is Tuple
            &&& r->Tuple_elements.len() == elements.len()
            &&& forall|i: int| 0 <= i < elements.len() ==> #[trigger] r->Tuple_elements[i] == lower_expr_spec(elements[i], exc)
        },{
    match e {
        Expr::List { elements, .. } => {
            assert(lower_expr_spec(e, exc)->List_elements == crate::lower::lower_exprs_spec(elements, exc));
        },
        Expr::Tuple { elements, .. } => {
            assert(lower_expr_spec(e, exc)->Tuple_elements == crate::lower::lower_exprs_spec(elements, exc));
        },
        _ => {},
    }
}

} // verus!
