//! The Python source text of expressions: each expression is written fully
//! parenthesised where Python's precedence could otherwise change its
//! meaning, so the text reads back as the same tree.
use vstd::prelude::*;
use crate::ast::StringDelimiter;
use crate::pyast::{
    PyArgument, PyBinaryOp, PyCompareOp, PyExpr, PyFStringPart, PyUnaryOp, strings_view,
};
use crate::text::{chars_of, push_char, push_str};

verus! {

// ---------------------------------------------------------------------------
// The model of the text.

/// The items one after another with `sep` between each two.
pub open spec fn join(items: Seq<Seq<char>>, sep: Seq<char>) -> Seq<char>
    decreases items.len(),
{
    if items.len() == 0 {
        Seq::empty()
    } else if items.len() == 1 {
        items[0]
    } else {
        join(items.drop_last(), sep) + sep + items.last()
    }
}

pub open spec fn delimiter_text(d: StringDelimiter) -> Seq<char> {
    match d {
        StringDelimiter::Single => seq!['\''],
        StringDelimiter::Double => seq!['"'],
        StringDelimiter::TripleSingle => seq!['\'', '\'', '\''],
        StringDelimiter::TripleDouble => seq!['"', '"', '"'],
    }
}

/// A string literal: the optional raw prefix, the delimiter, the text as
/// it stands, and the delimiter again.
pub open spec fn string_literal_text(value: Seq<char>, raw: bool, d: StringDelimiter) -> Seq<char> {
    (if raw {
        seq!['r']
    } else {
        Seq::empty()
    }) + delimiter_text(d) + value + delimiter_text(d)
}

/// How a character of literal f-string text is written: backslash, quote
/// and the control characters newline, return and tab are escaped, and
/// braces are doubled.
pub open spec fn escape_char(c: char) -> Seq<char> {
    if c == '\\' {
        seq!['\\', '\\']
    } else if c == '"' {
        seq!['\\', '"']
    } else if c == '\n' {
        seq!['\\', 'n']
    } else if c == '\r' {
        seq!['\\', 'r']
    } else if c == '\t' {
        seq!['\\', 't']
    } else if c == '{' {
        seq!['{', '{']
    } else if c == '}' {
        seq!['}', '}']
    } else {
        seq![c]
    }
}

pub open spec fn escape_fstring(s: Seq<char>) -> Seq<char>
    decreases s.len(),
{
    if s.len() == 0 {
        Seq::empty()
    } else {
        escape_fstring(s.drop_last()) + escape_char(s.last())
    }
}

pub open spec fn binary_op_text(op: PyBinaryOp) -> Seq<char> {
    match op {
        PyBinaryOp::Or => "or"@,
        PyBinaryOp::And => "and"@,
        PyBinaryOp::Add => "+"@,
        PyBinaryOp::Sub => "-"@,
        PyBinaryOp::Mul => "*"@,
        PyBinaryOp::Div => "/"@,
        PyBinaryOp::FloorDiv => "//"@,
        PyBinaryOp::Mod => "%"@,
        PyBinaryOp::Pow => "**"@,
    }
}

pub open spec fn compare_op_text(op: PyCompareOp) -> Seq<char> {
    match op {
        PyCompareOp::Eq => "=="@,
        PyCompareOp::NotEq => "!="@,
        PyCompareOp::Lt => "<"@,
        PyCompareOp::LtEq => "<="@,
        PyCompareOp::Gt => ">"@,
        PyCompareOp::GtEq => ">="@,
        PyCompareOp::In => "in"@,
        PyCompareOp::Is => "is"@,
    }
}

pub open spec fn unary_op_text(op: PyUnaryOp) -> Seq<char> {
    match op {
        PyUnaryOp::Plus => "+"@,
        PyUnaryOp::Minus => "-"@,
        PyUnaryOp::Not => "not "@,
    }
}

/// The operators and operands after the first operand of a comparison, for
/// the first `n` pairs.
pub open spec fn compare_pairs(ops: Seq<PyCompareOp>, texts: Seq<Seq<char>>, n: int) -> Seq<Seq<char>>
    decreases n,
{
    if n <= 0 {
        Seq::empty()
    } else {
        compare_pairs(ops, texts, n - 1) + seq![compare_op_text(ops[n - 1]), texts[n - 1]]
    }
}

/// ` if c` for each of the first `n` conditions.
pub open spec fn if_clauses(conds: Seq<Seq<char>>, n: int) -> Seq<char>
    decreases n,
{
    if n <= 0 {
        Seq::empty()
    } else {
        if_clauses(conds, n - 1) + " if "@ + conds[n - 1]
    }
}

/// The `for` clause of a comprehension and its conditions.
pub open spec fn comp_for_text(target: Seq<char>, iter: Seq<char>, conds: Seq<Seq<char>>) -> Seq<char> {
    " for "@ + target + " in "@ + iter + if_clauses(conds, conds.len() as int)
}

pub open spec fn min_len(a: nat, b: nat) -> int {
    if a <= b {
        a as int
    } else {
        b as int
    }
}

pub open spec fn expr_text(e: PyExpr) -> Seq<char>
    decreases e, 0int,
{
    match e {
        PyExpr::Name { id, .. } => id@,
        PyExpr::Number { value, .. } => value@,
        PyExpr::String { value, raw, delimiter, .. } => string_literal_text(value@, raw, delimiter),
        PyExpr::FString { parts, .. } => seq!['f', '"'] + fparts_text(parts@, parts.len() as int)
            + seq!['"'],
        PyExpr::Bool { value, .. } => if value {
            "True"@
        } else {
            "False"@
        },
        PyExpr::NoneLiteral { .. } => "None"@,
        PyExpr::Unary { op, operand, .. } => unary_op_text(op) + expr_text(*operand),
        PyExpr::Binary { left, op, right, .. } => "("@ + expr_text(*left) + " "@ + binary_op_text(op)
            + " "@ + expr_text(*right) + ")"@,
        PyExpr::Compare { left, ops, comparators, .. } => "("@ + join(
            seq![expr_text(*left)] + compare_pairs(
                ops@,
                exprs_texts(comparators@),
                min_len(ops.len() as nat, comparators.len() as nat),
            ),
            " "@,
        ) + ")"@,
        PyExpr::IfExpr { test, body, orelse, .. } => "("@ + expr_text(*body) + " if "@ + expr_text(
            *test,
        ) + " else "@ + expr_text(*orelse) + ")"@,
        PyExpr::Lambda { params, body, .. } => if params.len() == 0 {
            "lambda: "@ + expr_text(*body)
        } else {
            "lambda "@ + join(strings_view(params), ", "@) + ": "@ + expr_text(*body)
        },
        PyExpr::Call { func, args, .. } => expr_text(*func) + "("@ + join(args_texts(args@), ", "@)
            + ")"@,
        PyExpr::Attribute { value, attr, .. } => expr_text(*value) + "."@ + attr@,
        PyExpr::Index { value, index, .. } => expr_text(*value) + "["@ + expr_text(*index) + "]"@,
        PyExpr::Paren { expr, .. } => "("@ + expr_text(*expr) + ")"@,
        PyExpr::List { elements, .. } => "["@ + join(exprs_texts(elements@), ", "@) + "]"@,
        PyExpr::Tuple { elements, .. } => if elements.len() == 0 {
            "()"@
        } else if elements.len() == 1 {
            "("@ + join(exprs_texts(elements@), ", "@) + ",)"@
        } else {
            "("@ + join(exprs_texts(elements@), ", "@) + ")"@
        },
        PyExpr::Dict { entries, .. } => "{"@ + join(entries_texts(entries@), ", "@) + "}"@,
        PyExpr::SetLiteral { elements, .. } => "{"@ + join(exprs_texts(elements@), ", "@) + "}"@,
        PyExpr::ListComp { element, target, iter, ifs, .. } => "["@ + expr_text(*element)
            + comp_for_text(target@, expr_text(*iter), exprs_texts(ifs@)) + "]"@,
        PyExpr::DictComp { key, value, target, iter, ifs, .. } => "{"@ + expr_text(*key) + ": "@
            + expr_text(*value) + comp_for_text(target@, expr_text(*iter), exprs_texts(ifs@)) + "}"@,
        PyExpr::Slice { start, end, .. } => (match start {
            Some(b) => expr_text(*b),
            None => Seq::empty(),
        }) + ":"@ + (match end {
            Some(b) => expr_text(*b),
            None => Seq::empty(),
        }),
    }
}

pub open spec fn exprs_texts(s: Seq<PyExpr>) -> Seq<Seq<char>>
    decreases s, 1int,
{
    Seq::new(s.len(), |i: int| if 0 <= i < s.len() { expr_text(s[i]) } else { Seq::empty() })
}

pub open spec fn entries_texts(s: Seq<(PyExpr, PyExpr)>) -> Seq<Seq<char>>
    decreases s, 1int,
{
    Seq::new(
        s.len(),
        |i: int|
            if 0 <= i < s.len() {
                expr_text(s[i].0) + ": "@ + expr_text(s[i].1)
            } else {
                Seq::empty()
            },
    )
}

pub open spec fn fpart_text(p: PyFStringPart) -> Seq<char>
    decreases p, 0int,
{
    match p {
        PyFStringPart::Text(t) => escape_fstring(t@),
        PyFStringPart::Expr(e) => seq!['{'] + expr_text(e) + seq!['}'],
    }
}

/// The text of the first `n` parts of an f-string.
pub open spec fn fparts_text(s: Seq<PyFStringPart>, n: int) -> Seq<char>
    decreases s, n,
{
    if n <= 0 || n > s.len() {
        Seq::empty()
    } else {
        fparts_text(s, n - 1) + fpart_text(s[n - 1])
    }
}

pub open spec fn arg_text(a: PyArgument) -> Seq<char>
    decreases a, 0int,
{
    match a {
        PyArgument::Positional { value, .. } => expr_text(value),
        PyArgument::Keyword { name, value, .. } => name@ + "="@ + expr_text(value),
        PyArgument::Star { value, .. } => "*"@ + expr_text(value),
        PyArgument::KwStar { value, .. } => "**"@ + expr_text(value),
    }
}

pub open spec fn args_texts(s: Seq<PyArgument>) -> Seq<Seq<char>>
    decreases s, 1int,
{
    Seq::new(s.len(), |i: int| if 0 <= i < s.len() { arg_text(s[i]) } else { Seq::empty() })
}

// ---------------------------------------------------------------------------
// Writing the text.

/// The strings joined with `sep`.
pub fn join_strings(items: &Vec<String>, sep: &str) -> (r: String)
    ensures
        r@ == join(strings_view(*items), sep@),
{
    let ghost all = strings_view(*items);
    let mut out = String::new();
    let mut i: usize = 0;
    while i < items.len()
        invariant
            i <= items.len(),
            all == strings_view(*items),
            out@ == join(all.take(i as int), sep@),
        decreases items.len() - i,
    {
        if i > 0 {
            push_str(&mut out, sep);
        }
        push_str(&mut out, items[i].as_str());
        proof {
            assert(all.take(i + 1).drop_last() =~= all.take(i as int));
            assert(all.take(i + 1).last() == items[i as int]@);
            if i == 0 {
                assert(all.take(1) =~= seq![items[0]@]);
            }
        }
        i += 1;
    }
    assert(all.take(i as int) =~= all);
    out
}

fn push_delimiter(out: &mut String, d: StringDelimiter)
    ensures
        final(out)@ == old(out)@ + delimiter_text(d),
{
    let ghost start = out@;
    match d {
        StringDelimiter::Single => push_char(out, '\''),
        StringDelimiter::Double => push_char(out, '"'),
        StringDelimiter::TripleSingle => {
            push_char(out, '\'');
            push_char(out, '\'');
            push_char(out, '\'');
        },
        StringDelimiter::TripleDouble => {
            push_char(out, '"');
            push_char(out, '"');
            push_char(out, '"');
        },
    }
    assert(out@ =~= start + delimiter_text(d));
}

/// A Python string literal holding `value` as it stands.
pub fn format_string_literal(value: &str, raw: bool, delimiter: StringDelimiter) -> (r: String)
    ensures
        r@ == string_literal_text(value@, raw, delimiter),
{
    let mut out = String::new();
    if raw {
        push_char(&mut out, 'r');
    }
    let ghost prefix = out@;
    push_delimiter(&mut out, delimiter);
    push_str(&mut out, value);
    push_delimiter(&mut out, delimiter);
    assert(prefix =~= (if raw {
        seq!['r']
    } else {
        Seq::empty()
    }));
    assert(out@ =~= string_literal_text(value@, raw, delimiter));
    out
}

/// Literal text of an f-string, escaped so that Python reads it back as the
/// same characters.
pub fn escape_f_string_text(text: &str) -> (r: String)
    ensures
        r@ == escape_fstring(text@),
{
    let chars = chars_of(text);
    let mut out = String::new();
    let mut i: usize = 0;
    while i < chars.len()
        invariant
            i <= chars.len(),
            chars@ == text@,
            out@ == escape_fstring(chars@.take(i as int)),
        decreases chars.len() - i,
    {
        let c = chars[i];
        let ghost before = out@;
        if c == '\\' {
            push_char(&mut out, '\\');
            push_char(&mut out, '\\');
        } else if c == '"' {
            push_char(&mut out, '\\');
            push_char(&mut out, '"');
        } else if c == '\n' {
            push_char(&mut out, '\\');
            push_char(&mut out, 'n');
        } else if c == '\r' {
            push_char(&mut out, '\\');
            push_char(&mut out, 'r');
        } else if c == '\t' {
            push_char(&mut out, '\\');
            push_char(&mut out, 't');
        } else if c == '{' {
            push_char(&mut out, '{');
            push_char(&mut out, '{');
        } else if c == '}' {
            push_char(&mut out, '}');
            push_char(&mut out, '}');
        } else {
            push_char(&mut out, c);
        }
        assert(out@ =~= before + escape_char(c));
        assert(chars@.take(i + 1).drop_last() =~= chars@.take(i as int));
        i += 1;
    }
    assert(chars@.take(i as int) =~= text@);
    out
}

/// The Python spelling of a binary operator.
pub fn binary_op(op: PyBinaryOp) -> (r: &'static str)
    ensures
        r@ == binary_op_text(op),
{
    match op {
        PyBinaryOp::Or => "or",
        PyBinaryOp::And => "and",
        PyBinaryOp::Add => "+",
        PyBinaryOp::Sub => "-",
        PyBinaryOp::Mul => "*",
        PyBinaryOp::Div => "/",
        PyBinaryOp::FloorDiv => "//",
        PyBinaryOp::Mod => "%",
        PyBinaryOp::Pow => "**",
    }
}

/// The Python spelling of a comparison operator.
pub fn compare_op(op: PyCompareOp) -> (r: &'static str)
    ensures
        r@ == compare_op_text(op),
{
    match op {
        PyCompareOp::Eq => "==",
        PyCompareOp::NotEq => "!=",
        PyCompareOp::Lt => "<",
        PyCompareOp::LtEq => "<=",
        PyCompareOp::Gt => ">",
        PyCompareOp::GtEq => ">=",
        PyCompareOp::In => "in",
        PyCompareOp::Is => "is",
    }
}

fn unary_op(op: PyUnaryOp) -> (r: &'static str)
    ensures
        r@ == unary_op_text(op),
{
    match op {
        PyUnaryOp::Plus => "+",
        PyUnaryOp::Minus => "-",
        PyUnaryOp::Not => "not ",
    }
}

fn push_string(out: &mut String, t: String)
    ensures
        final(out)@ == old(out)@ + t@,
{
    push_str(out, t.as_str());
}

/// `open + inner + close` as one string.
fn enclose(open: &str, inner: String, close: &str) -> (r: String)
    ensures
        r@ == open@ + inner@ + close@,
{
    let mut out = String::new();
    push_str(&mut out, open);
    push_string(&mut out, inner);
    push_str(&mut out, close);
    assert(out@ =~= open@ + inner@ + close@);
    out
}

/// The source text of an expression.
pub fn expr_source(e: &PyExpr) -> (r: String)
    ensures
        r@ == expr_text(*e),
    decreases e, 1int,
{
    match e {
        PyExpr::Name { id, .. } => id.clone(),
        PyExpr::Number { value, .. } => value.clone(),
        PyExpr::String { value, raw, delimiter, .. } => format_string_literal(value.as_str(), *raw, *delimiter),
        PyExpr::FString { parts, .. } => format_f_string(parts),
        PyExpr::Bool { value, .. } => if *value {
            String::from_str("True")
        } else {
            String::from_str("False")
        },
        PyExpr::NoneLiteral { .. } => String::from_str("None"),
        PyExpr::Unary { op, operand, .. } => {
            let mut out = String::new();
            push_str(&mut out, unary_op(*op));
            push_string(&mut out, expr_source(operand));
            out
        },
        PyExpr::Binary { .. } => binary_source(e),
        PyExpr::Compare { .. } => compare_source(e),
        PyExpr::IfExpr { .. } => if_expr_source(e),
        PyExpr::Lambda { .. } => lambda_source(e),
        PyExpr::Call { .. } => call_source(e),
        PyExpr::Attribute { value, attr, .. } => {
            let mut out = expr_source(value);
            push_str(&mut out, ".");
            push_str(&mut out, attr.as_str());
            out
        },
        PyExpr::Index { value, index, .. } => {
            let mut out = expr_source(value);
            push_string(&mut out, enclose("[", expr_source(index), "]"));
            proof {
                assert(out@ =~= expr_text(*e));
            }
            out
        },
        PyExpr::Paren { expr, .. } => enclose("(", expr_source(expr), ")"),
        PyExpr::List { elements, .. } => enclose("[", join_strings(&exprs_sources(elements), ", "), "]"),
        PyExpr::Tuple { .. } => tuple_source(e),
        PyExpr::Dict { entries, .. } => enclose("{", join_strings(&entries_sources(entries), ", "), "}"),
        PyExpr::SetLiteral { elements, .. } => enclose(
            "{",
            join_strings(&exprs_sources(elements), ", "),
            "}",
        ),
        PyExpr::ListComp { .. } => list_comp_source(e),
        PyExpr::DictComp { .. } => dict_comp_source(e),
        PyExpr::Slice { .. } => slice_source(e),
    }
}

fn binary_source(e: &PyExpr) -> (r: String)
    requires
        *e is Binary,
    ensures
        r@ == expr_text(*e),
    decreases e, 0int,
{
    match e {
        PyExpr::Binary { left, op, right, .. } => {
            let mut out = String::new();
            push_str(&mut out, "(");
            push_string(&mut out, expr_source(left));
            push_str(&mut out, " ");
            push_str(&mut out, binary_op(*op));
            push_str(&mut out, " ");
            push_string(&mut out, expr_source(right));
            push_str(&mut out, ")");
            assert(out@ =~= expr_text(*e));
            out
        },
        _ => String::new(),
    }
}

fn compare_source(e: &PyExpr) -> (r: String)
    requires
        *e is Compare,
    ensures
        r@ == expr_text(*e),
    decreases e, 0int,
{
    match e {
        PyExpr::Compare { left, ops, comparators, .. } => {
            let texts = exprs_sources(comparators);
            let ghost model = exprs_texts(comparators@);
            let n = if ops.len() <= comparators.len() {
                ops.len()
            } else {
                comparators.len()
            };
            let mut parts: Vec<String> = Vec::new();
            let first = expr_source(left);
            let ghost first_text = first@;
            parts.push(first);
            assert(strings_view(parts) =~= seq![first_text] + compare_pairs(ops@, model, 0));
            let mut i: usize = 0;
            while i < n
                invariant
                    i <= n,
                    n <= ops.len(),
                    n <= comparators.len(),
                    texts.len() == comparators.len(),
                    model == exprs_texts(comparators@),
                    strings_view(texts) == model,
                    strings_view(parts) == seq![first_text] + compare_pairs(ops@, model, i as int),
                decreases n - i,
            {
                let ghost before = strings_view(parts);
                parts.push(String::from_str(compare_op(ops[i])));
                parts.push(texts[i].clone());
                assert(texts[i as int]@ == model[i as int]);
                assert(strings_view(parts) =~= before + seq![compare_op_text(ops@[i as int]), model[i as int]]);
                i += 1;
            }
            let r = enclose("(", join_strings(&parts, " "), ")");
            assert(n == min_len(ops.len() as nat, comparators.len() as nat));
            r
        },
        _ => String::new(),
    }
}

fn if_expr_source(e: &PyExpr) -> (r: String)
    requires
        *e is IfExpr,
    ensures
        r@ == expr_text(*e),
    decreases e, 0int,
{
    match e {
        PyExpr::IfExpr { test, body, orelse, .. } => {
            let mut out = String::new();
            push_str(&mut out, "(");
            push_string(&mut out, expr_source(body));
            push_str(&mut out, " if ");
            push_string(&mut out, expr_source(test));
            push_str(&mut out, " else ");
            push_string(&mut out, expr_source(orelse));
            push_str(&mut out, ")");
            assert(out@ =~= expr_text(*e));
            out
        },
        _ => String::new(),
    }
}

fn lambda_source(e: &PyExpr) -> (r: String)
    requires
        *e is Lambda,
    ensures
        r@ == expr_text(*e),
    decreases e, 0int,
{
    match e {
        PyExpr::Lambda { params, body, .. } => {
            let mut out = String::new();
            if params.len() == 0 {
                push_str(&mut out, "lambda: ");
            } else {
                push_str(&mut out, "lambda ");
                push_string(&mut out, join_strings(params, ", "));
                push_str(&mut out, ": ");
            }
            push_string(&mut out, expr_source(body));
            assert(out@ =~= expr_text(*e));
            out
        },
        _ => String::new(),
    }
}

fn call_source(e: &PyExpr) -> (r: String)
    requires
        *e is Call,
    ensures
        r@ == expr_text(*e),
    decreases e, 0int,
{
    match e {
        PyExpr::Call { func, args, .. } => {
            let mut out = expr_source(func);
            push_string(&mut out, enclose("(", join_strings(&args_sources(args), ", "), ")"));
            assert(out@ =~= expr_text(*e));
            out
        },
        _ => String::new(),
    }
}

fn tuple_source(e: &PyExpr) -> (r: String)
    requires
        *e is Tuple,
    ensures
        r@ == expr_text(*e),
    decreases e, 0int,
{
    match e {
        PyExpr::Tuple { elements, .. } => {
            if elements.len() == 0 {
                return String::from_str("()");
            }
            let items = join_strings(&exprs_sources(elements), ", ");
            if elements.len() == 1 {
                enclose("(", items, ",)")
            } else {
                enclose("(", items, ")")
            }
        },
        _ => String::new(),
    }
}

/// The `for` clause of a comprehension: ` for target in iter`, then
/// ` if cond` for each condition.
fn comp_for_source(target: &str, iter: String, ifs: &Vec<PyExpr>) -> (r: String)
    ensures
        r@ == comp_for_text(target@, iter@, exprs_texts(ifs@)),
    decreases ifs, 3int,
{
    let conds = exprs_sources(ifs);
    let ghost model = exprs_texts(ifs@);
    let mut out = String::new();
    push_str(&mut out, " for ");
    push_str(&mut out, target);
    push_str(&mut out, " in ");
    push_string(&mut out, iter);
    let ghost head = out@;
    assert(out@ =~= head + if_clauses(model, 0));
    let mut i: usize = 0;
    while i < conds.len()
        invariant
            i <= conds.len(),
            conds.len() == ifs.len(),
            model == exprs_texts(ifs@),
            strings_view(conds) == model,
            out@ == head + if_clauses(model, i as int),
        decreases conds.len() - i,
    {
        push_str(&mut out, " if ");
        push_str(&mut out, conds[i].as_str());
        assert(conds[i as int]@ == model[i as int]);
        assert(out@ =~= head + if_clauses(model, i + 1));
        i += 1;
    }
    assert(out@ =~= comp_for_text(target@, iter@, model));
    out
}

fn list_comp_source(e: &PyExpr) -> (r: String)
    requires
        *e is ListComp,
    ensures
        r@ == expr_text(*e),
    decreases e, 0int,
{
    match e {
        PyExpr::ListComp { element, target, iter, ifs, .. } => {
            let mut out = String::new();
            push_str(&mut out, "[");
            push_string(&mut out, expr_source(element));
            push_string(&mut out, comp_for_source(target.as_str(), expr_source(iter), ifs));
            push_str(&mut out, "]");
            assert(out@ =~= expr_text(*e));
            out
        },
        _ => String::new(),
    }
}

fn dict_comp_source(e: &PyExpr) -> (r: String)
    requires
        *e is DictComp,
    ensures
        r@ == expr_text(*e),
    decreases e, 0int,
{
    match e {
        PyExpr::DictComp { key, value, target, iter, ifs, .. } => {
            let mut out = String::new();
            push_str(&mut out, "{");
            push_string(&mut out, expr_source(key));
            push_str(&mut out, ": ");
            push_string(&mut out, expr_source(value));
            push_string(&mut out, comp_for_source(target.as_str(), expr_source(iter), ifs));
            push_str(&mut out, "}");
            assert(out@ =~= expr_text(*e));
            out
        },
        _ => String::new(),
    }
}

fn slice_source(e: &PyExpr) -> (r: String)
    requires
        *e is Slice,
    ensures
        r@ == expr_text(*e),
    decreases e, 0int,
{
    match e {
        PyExpr::Slice { start, end, .. } => {
            let mut out = String::new();
            match start {
                Some(b) => push_string(&mut out, expr_source(b)),
                None => {},
            }
            push_str(&mut out, ":");
            match end {
                Some(b) => push_string(&mut out, expr_source(b)),
                None => {},
            }
            assert(out@ =~= expr_text(*e));
            out
        },
        _ => String::new(),
    }
}

/// The source text of each expression, in order.
fn exprs_sources(v: &Vec<PyExpr>) -> (r: Vec<String>)
    ensures
        r.len() == v.len(),
        strings_view(r) == exprs_texts(v@),
    decreases v, 2int,
{
    let mut out: Vec<String> = Vec::new();
    let mut i: usize = 0;
    while i < v.len()
        invariant
            i <= v.len(),
            out.len() == i,
            forall|j: int| 0 <= j < i ==> (#[trigger] out[j])@ == expr_text(v@[j]),
        decreases v.len() - i,
    {
        proof {
            assert(decreases_to!(*v => v[i as int]));
        }
        out.push(expr_source(&v[i]));
        i += 1;
    }
    assert(strings_view(out) =~= exprs_texts(v@));
    out
}

fn entries_sources(v: &Vec<(PyExpr, PyExpr)>) -> (r: Vec<String>)
    ensures
        strings_view(r) == entries_texts(v@),
    decreases v, 2int,
{
    let mut out: Vec<String> = Vec::new();
    let mut i: usize = 0;
    while i < v.len()
        invariant
            i <= v.len(),
            out.len() == i,
            forall|j: int|
                0 <= j < i ==> (#[trigger] out[j])@ == expr_text(v@[j].0) + ": "@ + expr_text(v@[j].1),
        decreases v.len() - i,
    {
        proof {
            assert(decreases_to!(*v => v[i as int]));
            assert(decreases_to!(v[i as int] => v[i as int].0));
            assert(decreases_to!(v[i as int] => v[i as int].1));
        }
        let mut item = expr_source(&v[i].0);
        push_str(&mut item, ": ");
        push_string(&mut item, expr_source(&v[i].1));
        out.push(item);
        i += 1;
    }
    assert(strings_view(out) =~= entries_texts(v@));
    out
}

/// An f-string literal with its text parts escaped and its expressions in
/// braces.
pub fn format_f_string(parts: &Vec<PyFStringPart>) -> (r: String)
    ensures
        r@ == seq!['f', '"'] + fparts_text(parts@, parts.len() as int) + seq!['"'],
    decreases parts, 2int,
{
    let mut body = String::new();
    let mut i: usize = 0;
    while i < parts.len()
        invariant
            i <= parts.len(),
            body@ == fparts_text(parts@, i as int),
        decreases parts.len() - i,
    {
        proof {
            assert(decreases_to!(*parts => parts[i as int]));
        }
        let ghost before = body@;
        match &parts[i] {
            PyFStringPart::Text(text) => push_string(&mut body, escape_f_string_text(text.as_str())),
            PyFStringPart::Expr(ex) => {
                push_char(&mut body, '{');
                push_string(&mut body, expr_source(ex));
                push_char(&mut body, '}');
            },
        }
        assert(body@ =~= before + fpart_text(parts@[i as int]));
        i += 1;
    }
    let mut out = String::new();
    push_char(&mut out, 'f');
    push_char(&mut out, '"');
    push_string(&mut out, body);
    push_char(&mut out, '"');
    assert(out@ =~= seq!['f', '"'] + fparts_text(parts@, parts.len() as int) + seq!['"']);
    out
}

/// The source text of a call argument.
pub fn argument_source(a: &PyArgument) -> (r: String)
    ensures
        r@ == arg_text(*a),
    decreases a, 0int,
{
    match a {
        PyArgument::Positional { value, .. } => expr_source(value),
        PyArgument::Keyword { name, value, .. } => {
            let mut out = name.clone();
            push_str(&mut out, "=");
            push_string(&mut out, expr_source(value));
            out
        },
        PyArgument::Star { value, .. } => {
            let mut out = String::from_str("*");
            push_string(&mut out, expr_source(value));
            out
        },
        PyArgument::KwStar { value, .. } => {
            let mut out = String::from_str("**");
            push_string(&mut out, expr_source(value));
            out
        },
    }
}

fn args_sources(v: &Vec<PyArgument>) -> (r: Vec<String>)
    ensures
        strings_view(r) == args_texts(v@),
    decreases v, 2int,
{
    let mut out: Vec<String> = Vec::new();
    let mut i: usize = 0;
    while i < v.len()
        invariant
            i <= v.len(),
            out.len() == i,
            forall|j: int| 0 <= j < i ==> (#[trigger] out[j])@ == arg_text(v@[j]),
        decreases v.len() - i,
    {
        proof {
            assert(decreases_to!(*v => v[i as int]));
        }
        out.push(argument_source(&v[i]));
        i += 1;
    }
    assert(strings_view(out) =~= args_texts(v@));
    out
}


/// The text of an argument tells its kind: a positional argument is its
/// value's text, a keyword argument is `name=` before it, unpacking a
/// sequence puts `*` before it and unpacking a mapping `**`; so unpacking a
/// value as a sequence and as a mapping never read the same.
pub proof fn lemma_argument_text_marks_its_kind(value: PyExpr, a: PyArgument)
    ensures
        a matches PyArgument::Positional { value: v, .. } ==> arg_text(a) == expr_text(v),
        a matches PyArgument::Keyword { name: n, value: v, .. } ==> arg_text(a) == n@ + "="@ + expr_text(v),
        a matches PyArgument::Star { value: v, .. } ==> arg_text(a) == "*"@ + expr_text(v),
        a matches PyArgument::KwStar { value: v, .. } ==> arg_text(a) == "**"@ + expr_text(v),
        ({
            let star = arg_text(PyArgument::Star { value, span: crate::lower::dummy_span() });
            let kwstar = arg_text(PyArgument::KwStar { value, span: crate::lower::dummy_span() });
            &&& star.len() >= 1 && star[0] == '*'
            &&& kwstar.len() >= 2 && kwstar[0] == '*' && kwstar[1] == '*'
            &&& star != kwstar
        }),
{
    reveal_strlit("*");
    reveal_strlit("**");
    reveal_strlit("=");
    let star = arg_text(PyArgument::Star { value, span: crate::lower::dummy_span() });
    let kwstar = arg_text(PyArgument::KwStar { value, span: crate::lower::dummy_span() });
    assert(star.len() + 1 == kwstar.len());
}

/// A binary operator and a single comparison are written between their
/// operands, each whole, inside one pair of parentheses, with the
/// operator's Python text between spaces.
pub proof fn lemma_operators_stand_between_operands(e: PyExpr)
    ensures
        e matches PyExpr::Binary { left, op, right, .. } ==> expr_text(e) == "("@ + expr_text(*left)
            + " "@ + binary_op_text(op) + " "@ + expr_text(*right) + ")"@,
        e matches PyExpr::Compare { left, ops, comparators, .. } ==> (ops.len() == 1
            && comparators.len() == 1 ==> expr_text(e) == "("@ + expr_text(*left) + " "@
            + compare_op_text(ops[0]) + " "@ + expr_text(comparators[0]) + ")"@),
        e matches PyExpr::Unary { op, operand, .. } ==> expr_text(e) == unary_op_text(op) + expr_text(*operand),
{
    if let PyExpr::Compare { left, ops, comparators, span } = e {
        if ops.len() == 1 && comparators.len() == 1 {
            let texts = exprs_texts(comparators@);
            assert(min_len(ops.len() as nat, comparators.len() as nat) == 1);
            let pairs = compare_pairs(ops@, texts, 1);
            assert(compare_pairs(ops@, texts, 0) =~= Seq::<Seq<char>>::empty());
            assert(pairs =~= seq![compare_op_text(ops[0]), expr_text(comparators[0])]);
            let items = seq![expr_text(*left)] + pairs;
            assert(items =~= seq![expr_text(*left), compare_op_text(ops[0]), expr_text(comparators[0])]);
            assert(items.drop_last() =~= seq![expr_text(*left), compare_op_text(ops[0])]);
            assert(items.drop_last().drop_last() =~= seq![expr_text(*left)]);
            let sp = " "@;
            assert(join(items.drop_last().drop_last(), sp) == expr_text(*left));
            assert(join(items.drop_last(), sp) == expr_text(*left) + sp + compare_op_text(ops[0]));
            assert(join(items, sp) == expr_text(*left) + sp + compare_op_text(ops[0]) + sp + expr_text(comparators[0]));
        }
    }
}

} // verus!
