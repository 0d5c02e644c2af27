//! Steps of parsing that work on what the grammar has already recognised:
//! turning an expression into the target of an assignment.
use vstd::prelude::*;
use crate::ast::{AssignTarget, Expr, expr_span_of};
use crate::debug_form::{expr_debug, expr_form};
use crate::error::ParseError;
use crate::source_pos::{error_with_span, expr_span, line_text_spec};
use crate::text::{owned, push_str};

verus! {

/// The message for an expression that cannot be assigned to.
pub open spec fn bad_target_message(e: Expr) -> Seq<char> {
    "unsupported assignment target: "@ + expr_form(e)
}

/// Whether an error is the one that refuses `e` as an assignment target in
/// `source`: the message, the span of `e`, and the text of its first line.
pub open spec fn is_bad_target_error(err: ParseError, e: Expr, source: Seq<char>) -> bool {
    &&& err.message@ == bad_target_message(e)
    &&& err.span == Some(expr_span_of(e))
    &&& match err.line_text {
        Some(t) => line_text_spec(source, expr_span_of(e).start.line) == Some(t@),
        None => line_text_spec(source, expr_span_of(e).start.line) is None,
    }
}

/// The assignment target that an expression stands for: a name, an
/// attribute or an index keeps its parts; any other expression is refused.
pub fn assign_target_from_expr(expr: Expr, source: &str) -> (r: Result<AssignTarget, ParseError>)
    ensures
        match expr {
            Expr::Name { name, span } => r == Ok::<AssignTarget, ParseError>(
                AssignTarget::Name { name, span },
            ),
            Expr::Attribute { value, attr, span } => r == Ok::<AssignTarget, ParseError>(
                AssignTarget::Attribute { value, attr, span },
            ),
            Expr::Index { value, index, span } => r == Ok::<AssignTarget, ParseError>(
                AssignTarget::Index { value, index, span },
            ),
            _ => match r {
                Err(err) => is_bad_target_error(err, expr, source@),
                Ok(_) => false,
            },
        },
{
    match expr {
        Expr::Name { name, span } => Ok(AssignTarget::Name { name, span }),
        Expr::Attribute { value, attr, span } => Ok(AssignTarget::Attribute { value, attr, span }),
        Expr::Index { value, index, span } => Ok(AssignTarget::Index { value, index, span }),
        other => {
            let span = expr_span(&other);
            let mut message = owned("unsupported assignment target: ");
            let shown = expr_debug(&other);
            push_str(&mut message, shown.as_str());
            Err(error_with_span(message.as_str(), span, source))
        },
    }
}

} // verus!
