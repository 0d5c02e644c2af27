//! The text that the derived `Debug` formatting writes for a Snail
//! expression, built here so that the library states it. The `None` and
//! `Set` literals carry those names, as the syntax tree of the language
//! calls them. Structs are written as
//! `Name { field: value, .. }`, tuples and tuple variants in brackets, lists
//! as `[a, b]`, strings quoted and escaped.
use vstd::prelude::*;
use crate::ast::{
    Argument, BinaryOp, CompareOp, Expr, FStringPart, RegexPattern, SourcePos, SourceSpan,
    StringDelimiter, SubprocessKind, SubprocessPart, UnaryOp,
};
use crate::text::{nat_text, owned, push_chars, push_str, u64_text};

verus! {

/// The text of a string as `Debug` writes it: quoted, with its special
/// characters escaped.
pub uninterp spec fn str_debug_text(s: Seq<char>) -> Seq<char>;

/// `format!("{:?}", s)` for a `str`: the string quoted and escaped as
/// `str::escape_debug` does. The contract names the text and says nothing
/// of the escaping rules.
#[verifier::external_body]
fn debug_quoted(s: &str) -> (r: String)
    ensures
        r@ == str_debug_text(s@),
{
    format!("{:?}", s)
}

pub open spec fn bool_form(b: bool) -> Seq<char> {
    if b {
        "true"@
    } else {
        "false"@
    }
}

pub open spec fn list_form(items: Seq<char>) -> Seq<char> {
    "["@ + items + "]"@
}

pub open spec fn pos_form(p: SourcePos) -> Seq<char> {
    "SourcePos { offset: "@ + nat_text(p.offset as nat) + ", line: "@ + nat_text(p.line as nat)
        + ", column: "@ + nat_text(p.column as nat) + " }"@
}

pub open spec fn span_form(s: SourceSpan) -> Seq<char> {
    "SourceSpan { start: "@ + pos_form(s.start) + ", end: "@ + pos_form(s.end) + " }"@
}

pub open spec fn delimiter_form(d: StringDelimiter) -> Seq<char> {
    match d {
        StringDelimiter::Single => "Single"@,
        StringDelimiter::Double => "Double"@,
        StringDelimiter::TripleSingle => "TripleSingle"@,
        StringDelimiter::TripleDouble => "TripleDouble"@,
    }
}

pub open spec fn unary_form(op: UnaryOp) -> Seq<char> {
    match op {
        UnaryOp::Plus => "Plus"@,
        UnaryOp::Minus => "Minus"@,
        UnaryOp::Not => "Not"@,
    }
}

pub open spec fn binary_form(op: BinaryOp) -> Seq<char> {
    match op {
        BinaryOp::Or => "Or"@,
        BinaryOp::And => "And"@,
        BinaryOp::Add => "Add"@,
        BinaryOp::Sub => "Sub"@,
        BinaryOp::Mul => "Mul"@,
        BinaryOp::Div => "Div"@,
        BinaryOp::FloorDiv => "FloorDiv"@,
        BinaryOp::Mod => "Mod"@,
        BinaryOp::Pow => "Pow"@,
        BinaryOp::Pipeline => "Pipeline"@,
    }
}

pub open spec fn compare_form(op: CompareOp) -> Seq<char> {
    match op {
        CompareOp::Eq => "Eq"@,
        CompareOp::NotEq => "NotEq"@,
        CompareOp::Lt => "Lt"@,
        CompareOp::LtEq => "LtEq"@,
        CompareOp::Gt => "Gt"@,
        CompareOp::GtEq => "GtEq"@,
        CompareOp::In => "In"@,
        CompareOp::Is => "Is"@,
    }
}

pub open spec fn kind_form(k: SubprocessKind) -> Seq<char> {
    match k {
        SubprocessKind::Capture => "Capture"@,
        SubprocessKind::Status => "Status"@,
    }
}

/// The `Debug` text of an expression.
pub open spec fn expr_form(e: Expr) -> Seq<char>
    decreases e, 0int,
{
    match e {
        Expr::Name { name, span } => "Name { name: "@ + str_debug_text(name@) + ", span: "@ + span_form(span) + " }"@,
        Expr::Number { value, span } => "Number { value: "@ + str_debug_text(value@) + ", span: "@ + span_form(span) + " }"@,
        Expr::String { value, raw, delimiter, span } => "String { value: "@ + str_debug_text(value@) + ", raw: "@ + bool_form(raw) + ", delimiter: "@ + delimiter_form(delimiter) + ", span: "@ + span_form(span) + " }"@,
        Expr::FString { parts, span } => "FString { parts: "@ + list_form(fparts_items(parts@, parts@.len() as int)) + ", span: "@ + span_form(span) + " }"@,
        Expr::Bool { value, span } => "Bool { value: "@ + bool_form(value) + ", span: "@ + span_form(span) + " }"@,
        Expr::NoneLiteral { span } => "None { span: "@ + span_form(span) + " }"@,
        Expr::Unary { op, expr, span } => "Unary { op: "@ + unary_form(op) + ", expr: "@ + expr_form(*expr) + ", span: "@ + span_form(span) + " }"@,
        Expr::Binary { left, op, right, span } => "Binary { left: "@ + expr_form(*left) + ", op: "@ + binary_form(op) + ", right: "@ + expr_form(*right) + ", span: "@ + span_form(span) + " }"@,
        Expr::Compare { left, ops, comparators, span } => "Compare { left: "@ + expr_form(*left) + ", ops: "@ + list_form(compare_ops_items(ops@, ops@.len() as int)) + ", comparators: "@ + list_form(exprs_items(comparators@, comparators@.len() as int)) + ", span: "@ + span_form(span) + " }"@,
        Expr::IfExpr { test, body, orelse, span } => "IfExpr { test: "@ + expr_form(*test) + ", body: "@ + expr_form(*body) + ", orelse: "@ + expr_form(*orelse) + ", span: "@ + span_form(span) + " }"@,
        Expr::TryExpr { expr, fallback, span } => "TryExpr { expr: "@ + expr_form(*expr) + ", fallback: "@ + opt_expr_form(fallback) + ", span: "@ + span_form(span) + " }"@,
        Expr::Compound { expressions, span } => "Compound { expressions: "@ + list_form(exprs_items(expressions@, expressions@.len() as int)) + ", span: "@ + span_form(span) + " }"@,
        Expr::Regex { pattern, span } => "Regex { pattern: "@ + pattern_form(pattern) + ", span: "@ + span_form(span) + " }"@,
        Expr::RegexMatch { value, pattern, span } => "RegexMatch { value: "@ + expr_form(*value) + ", pattern: "@ + pattern_form(pattern) + ", span: "@ + span_form(span) + " }"@,
        Expr::Subprocess { kind, parts, span } => "Subprocess { kind: "@ + kind_form(kind) + ", parts: "@ + list_form(subparts_items(parts@, parts@.len() as int)) + ", span: "@ + span_form(span) + " }"@,
        Expr::StructuredAccessor { query, span } => "StructuredAccessor { query: "@ + str_debug_text(query@) + ", span: "@ + span_form(span) + " }"@,
        Expr::Call { func, args, span } => "Call { func: "@ + expr_form(*func) + ", args: "@ + list_form(args_items(args@, args@.len() as int)) + ", span: "@ + span_form(span) + " }"@,
        Expr::Attribute { value, attr, span } => "Attribute { value: "@ + expr_form(*value) + ", attr: "@ + str_debug_text(attr@) + ", span: "@ + span_form(span) + " }"@,
        Expr::Index { value, index, span } => "Index { value: "@ + expr_form(*value) + ", index: "@ + expr_form(*index) + ", span: "@ + span_form(span) + " }"@,
        Expr::Paren { expr, span } => "Paren { expr: "@ + expr_form(*expr) + ", span: "@ + span_form(span) + " }"@,
        Expr::FieldIndex { index, span } => "FieldIndex { index: "@ + str_debug_text(index@) + ", span: "@ + span_form(span) + " }"@,
        Expr::List { elements, span } => "List { elements: "@ + list_form(exprs_items(elements@, elements@.len() as int)) + ", span: "@ + span_form(span) + " }"@,
        Expr::Tuple { elements, span } => "Tuple { elements: "@ + list_form(exprs_items(elements@, elements@.len() as int)) + ", span: "@ + span_form(span) + " }"@,
        Expr::Dict { entries, span } => "Dict { entries: "@ + list_form(entries_items(entries@, entries@.len() as int)) + ", span: "@ + span_form(span) + " }"@,
        Expr::SetLiteral { elements, span } => "Set { elements: "@ + list_form(exprs_items(elements@, elements@.len() as int)) + ", span: "@ + span_form(span) + " }"@,
        Expr::ListComp { element, target, iter, ifs, span } => "ListComp { element: "@ + expr_form(*element) + ", target: "@ + str_debug_text(target@) + ", iter: "@ + expr_form(*iter) + ", ifs: "@ + list_form(exprs_items(ifs@, ifs@.len() as int)) + ", span: "@ + span_form(span) + " }"@,
        Expr::DictComp { key, value, target, iter, ifs, span } => "DictComp { key: "@ + expr_form(*key) + ", value: "@ + expr_form(*value) + ", target: "@ + str_debug_text(target@) + ", iter: "@ + expr_form(*iter) + ", ifs: "@ + list_form(exprs_items(ifs@, ifs@.len() as int)) + ", span: "@ + span_form(span) + " }"@,
        Expr::Slice { start, end, span } => "Slice { start: "@ + opt_expr_form(start) + ", end: "@ + opt_expr_form(end) + ", span: "@ + span_form(span) + " }"@,
    }
}

pub open spec fn opt_expr_form(o: Option<Box<Expr>>) -> Seq<char>
    decreases o, 0int,
{
    match o {
        Some(b) => "Some("@ + expr_form(*b) + ")"@,
        None => "None"@,
    }
}

pub open spec fn arg_form(a: Argument) -> Seq<char>
    decreases a, 0int,
{
    match a {
        Argument::Positional { value, span } => "Positional { value: "@ + expr_form(value) + ", span: "@ + span_form(span) + " }"@,
        Argument::Keyword { name, value, span } => "Keyword { name: "@ + str_debug_text(name@) + ", value: "@ + expr_form(value) + ", span: "@ + span_form(span) + " }"@,
        Argument::Star { value, span } => "Star { value: "@ + expr_form(value) + ", span: "@ + span_form(span) + " }"@,
        Argument::KwStar { value, span } => "KwStar { value: "@ + expr_form(value) + ", span: "@ + span_form(span) + " }"@,
    }
}

pub open spec fn fpart_form(p: FStringPart) -> Seq<char>
    decreases p, 0int,
{
    match p {
        FStringPart::Text(t) => "Text("@ + str_debug_text(t@) + ")"@,
        FStringPart::Expr(b) => "Expr("@ + expr_form(*b) + ")"@,
    }
}

pub open spec fn subpart_form(p: SubprocessPart) -> Seq<char>
    decreases p, 0int,
{
    match p {
        SubprocessPart::Text(t) => "Text("@ + str_debug_text(t@) + ")"@,
        SubprocessPart::Expr(b) => "Expr("@ + expr_form(*b) + ")"@,
    }
}

pub open spec fn pattern_form(p: RegexPattern) -> Seq<char>
    decreases p, 0int,
{
    match p {
        RegexPattern::Literal(t) => "Literal("@ + str_debug_text(t@) + ")"@,
        RegexPattern::Interpolated(v) => "Interpolated("@ + list_form(fparts_items(v@, v@.len() as int)) + ")"@,
    }
}

/// The items of a list of exprs: the first `n`, separated by `, `.
pub open spec fn exprs_items(s: Seq<Expr>, n: int) -> Seq<char>
    decreases s, n,
{
    if n <= 0 || n > s.len() {
        Seq::empty()
    } else if n == 1 {
        expr_form(s[0])
    } else {
        exprs_items(s, n - 1) + ", "@ + expr_form(s[n - 1])
    }
}

/// The items of a list of entries: the first `n`, separated by `, `.
pub open spec fn entries_items(s: Seq<(Expr, Expr)>, n: int) -> Seq<char>
    decreases s, n,
{
    if n <= 0 || n > s.len() {
        Seq::empty()
    } else if n == 1 {
        "("@ + expr_form(s[0].0) + ", "@ + expr_form(s[0].1) + ")"@
    } else {
        entries_items(s, n - 1) + ", "@ + "("@ + expr_form(s[n - 1].0) + ", "@ + expr_form(s[n - 1].1) + ")"@
    }
}

/// The items of a list of args: the first `n`, separated by `, `.
pub open spec fn args_items(s: Seq<Argument>, n: int) -> Seq<char>
    decreases s, n,
{
    if n <= 0 || n > s.len() {
        Seq::empty()
    } else if n == 1 {
        arg_form(s[0])
    } else {
        args_items(s, n - 1) + ", "@ + arg_form(s[n - 1])
    }
}

/// The items of a list of fparts: the first `n`, separated by `, `.
pub open spec fn fparts_items(s: Seq<FStringPart>, n: int) -> Seq<char>
    decreases s, n,
{
    if n <= 0 || n > s.len() {
        Seq::empty()
    } else if n == 1 {
        fpart_form(s[0])
    } else {
        fparts_items(s, n - 1) + ", "@ + fpart_form(s[n - 1])
    }
}

/// The items of a list of subparts: the first `n`, separated by `, `.
pub open spec fn subparts_items(s: Seq<SubprocessPart>, n: int) -> Seq<char>
    decreases s, n,
{
    if n <= 0 || n > s.len() {
        Seq::empty()
    } else if n == 1 {
        subpart_form(s[0])
    } else {
        subparts_items(s, n - 1) + ", "@ + subpart_form(s[n - 1])
    }
}

/// The items of a list of compare_ops: the first `n`, separated by `, `.
pub open spec fn compare_ops_items(s: Seq<CompareOp>, n: int) -> Seq<char>
    decreases n,
{
    if n <= 0 || n > s.len() {
        Seq::empty()
    } else if n == 1 {
        compare_form(s[0])
    } else {
        compare_ops_items(s, n - 1) + ", "@ + compare_form(s[n - 1])
    }
}


fn bool_debug(b: bool) -> (r: &'static str)
    ensures
        r@ == bool_form(b),
{
    if b {
        "true"
    } else {
        "false"
    }
}

fn pos_debug(p: &SourcePos) -> (r: String)
    ensures
        r@ == pos_form(*p),
{
    let mut out = owned("SourcePos { offset: ");
    push_chars(&mut out, &u64_text(p.offset as u64));
    push_str(&mut out, ", line: ");
    push_chars(&mut out, &u64_text(p.line as u64));
    push_str(&mut out, ", column: ");
    push_chars(&mut out, &u64_text(p.column as u64));
    push_str(&mut out, " }");
    out
}

fn span_debug(s: &SourceSpan) -> (r: String)
    ensures
        r@ == span_form(*s),
{
    let mut out = owned("SourceSpan { start: ");
    push_str(&mut out, pos_debug(&s.start).as_str());
    push_str(&mut out, ", end: ");
    push_str(&mut out, pos_debug(&s.end).as_str());
    push_str(&mut out, " }");
    out
}

fn delimiter_debug(d: StringDelimiter) -> (r: &'static str)
    ensures
        r@ == delimiter_form(d),
{
    match d {
        StringDelimiter::Single => "Single",
        StringDelimiter::Double => "Double",
        StringDelimiter::TripleSingle => "TripleSingle",
        StringDelimiter::TripleDouble => "TripleDouble",
    }
}

fn unary_debug(op: UnaryOp) -> (r: &'static str)
    ensures
        r@ == unary_form(op),
{
    match op {
        UnaryOp::Plus => "Plus",
        UnaryOp::Minus => "Minus",
        UnaryOp::Not => "Not",
    }
}

fn binary_debug(op: BinaryOp) -> (r: &'static str)
    ensures
        r@ == binary_form(op),
{
    match op {
        BinaryOp::Or => "Or",
        BinaryOp::And => "And",
        BinaryOp::Add => "Add",
        BinaryOp::Sub => "Sub",
        BinaryOp::Mul => "Mul",
        BinaryOp::Div => "Div",
        BinaryOp::FloorDiv => "FloorDiv",
        BinaryOp::Mod => "Mod",
        BinaryOp::Pow => "Pow",
        BinaryOp::Pipeline => "Pipeline",
    }
}

fn compare_debug(op: CompareOp) -> (r: &'static str)
    ensures
        r@ == compare_form(op),
{
    match op {
        CompareOp::Eq => "Eq",
        CompareOp::NotEq => "NotEq",
        CompareOp::Lt => "Lt",
        CompareOp::LtEq => "LtEq",
        CompareOp::Gt => "Gt",
        CompareOp::GtEq => "GtEq",
        CompareOp::In => "In",
        CompareOp::Is => "Is",
    }
}

fn kind_debug(k: SubprocessKind) -> (r: &'static str)
    ensures
        r@ == kind_form(k),
{
    match k {
        SubprocessKind::Capture => "Capture",
        SubprocessKind::Status => "Status",
    }
}

/// The `Debug` text of an expression.
pub fn expr_debug(e: &Expr) -> (r: String)
    ensures
        r@ == expr_form(*e),
    decreases e, 1int,
{
    match e {
        Expr::Name { name, span } => {
            let mut out = owned("Name { name: ");
            push_str(&mut out, debug_quoted(name.as_str()).as_str());
            push_str(&mut out, ", span: ");
            push_str(&mut out, span_debug(span).as_str());
            push_str(&mut out, " }");
            out
        },
        Expr::Number { value, span } => {
            let mut out = owned("Number { value: ");
            push_str(&mut out, debug_quoted(value.as_str()).as_str());
            push_str(&mut out, ", span: ");
            push_str(&mut out, span_debug(span).as_str());
            push_str(&mut out, " }");
            out
        },
        Expr::String { value, raw, delimiter, span } => {
            let mut out = owned("String { value: ");
            push_str(&mut out, debug_quoted(value.as_str()).as_str());
            push_str(&mut out, ", raw: ");
            push_str(&mut out, bool_debug(*raw));
            push_str(&mut out, ", delimiter: ");
            push_str(&mut out, delimiter_debug(*delimiter));
            push_str(&mut out, ", span: ");
            push_str(&mut out, span_debug(span).as_str());
            push_str(&mut out, " }");
            out
        },
        Expr::FString { parts, span } => {
            let mut out = owned("FString { parts: ");
            push_str(&mut out, fparts_debug(parts).as_str());
            push_str(&mut out, ", span: ");
            push_str(&mut out, span_debug(span).as_str());
            push_str(&mut out, " }");
            out
        },
        Expr::Bool { value, span } => {
            let mut out = owned("Bool { value: ");
            push_str(&mut out, bool_debug(*value));
            push_str(&mut out, ", span: ");
            push_str(&mut out, span_debug(span).as_str());
            push_str(&mut out, " }");
            out
        },
        Expr::NoneLiteral { span } => {
            let mut out = owned("None { span: ");
            push_str(&mut out, span_debug(span).as_str());
            push_str(&mut out, " }");
            out
        },
        Expr::Unary { op, expr, span } => {
            let mut out = owned("Unary { op: ");
            push_str(&mut out, unary_debug(*op));
            push_str(&mut out, ", expr: ");
            push_str(&mut out, expr_debug(&**expr).as_str());
            push_str(&mut out, ", span: ");
            push_str(&mut out, span_debug(span).as_str());
            push_str(&mut out, " }");
            out
        },
        Expr::Binary { left, op, right, span } => {
            let mut out = owned("Binary { left: ");
            push_str(&mut out, expr_debug(&**left).as_str());
            push_str(&mut out, ", op: ");
            push_str(&mut out, binary_debug(*op));
            push_str(&mut out, ", right: ");
            push_str(&mut out, expr_debug(&**right).as_str());
            push_str(&mut out, ", span: ");
            push_str(&mut out, span_debug(span).as_str());
            push_str(&mut out, " }");
            out
        },
        Expr::Compare { left, ops, comparators, span } => {
            let mut out = owned("Compare { left: ");
            push_str(&mut out, expr_debug(&**left).as_str());
            push_str(&mut out, ", ops: ");
            push_str(&mut out, compare_ops_debug(ops).as_str());
            push_str(&mut out, ", comparators: ");
            push_str(&mut out, exprs_debug(comparators).as_str());
            push_str(&mut out, ", span: ");
            push_str(&mut out, span_debug(span).as_str());
            push_str(&mut out, " }");
            out
        },
        Expr::IfExpr { test, body, orelse, span } => {
            let mut out = owned("IfExpr { test: ");
            push_str(&mut out, expr_debug(&**test).as_str());
            push_str(&mut out, ", body: ");
            push_str(&mut out, expr_debug(&**body).as_str());
            push_str(&mut out, ", orelse: ");
            push_str(&mut out, expr_debug(&**orelse).as_str());
            push_str(&mut out, ", span: ");
            push_str(&mut out, span_debug(span).as_str());
            push_str(&mut out, " }");
            out
        },
        Expr::TryExpr { expr, fallback, span } => {
            let mut out = owned("TryExpr { expr: ");
            push_str(&mut out, expr_debug(&**expr).as_str());
            push_str(&mut out, ", fallback: ");
            push_str(&mut out, opt_expr_debug(fallback).as_str());
            push_str(&mut out, ", span: ");
            push_str(&mut out, span_debug(span).as_str());
            push_str(&mut out, " }");
            out
        },
        Expr::Compound { expressions, span } => {
            let mut out = owned("Compound { expressions: ");
            push_str(&mut out, exprs_debug(expressions).as_str());
            push_str(&mut out, ", span: ");
            push_str(&mut out, span_debug(span).as_str());
            push_str(&mut out, " }");
            out
        },
        Expr::Regex { pattern, span } => {
            let mut out = owned("Regex { pattern: ");
            push_str(&mut out, pattern_debug(pattern).as_str());
            push_str(&mut out, ", span: ");
            push_str(&mut out, span_debug(span).as_str());
            push_str(&mut out, " }");
            out
        },
        Expr::RegexMatch { value, pattern, span } => {
            let mut out = owned("RegexMatch { value: ");
            push_str(&mut out, expr_debug(&**value).as_str());
            push_str(&mut out, ", pattern: ");
            push_str(&mut out, pattern_debug(pattern).as_str());
            push_str(&mut out, ", span: ");
            push_str(&mut out, span_debug(span).as_str());
            push_str(&mut out, " }");
            out
        },
        Expr::Subprocess { kind, parts, span } => {
            let mut out = owned("Subprocess { kind: ");
            push_str(&mut out, kind_debug(*kind));
            push_str(&mut out, ", parts: ");
            push_str(&mut out, subparts_debug(parts).as_str());
            push_str(&mut out, ", span: ");
            push_str(&mut out, span_debug(span).as_str());
            push_str(&mut out, " }");
            out
        },
        Expr::StructuredAccessor { query, span } => {
            let mut out = owned("StructuredAccessor { query: ");
            push_str(&mut out, debug_quoted(query.as_str()).as_str());
            push_str(&mut out, ", span: ");
            push_str(&mut out, span_debug(span).as_str());
            push_str(&mut out, " }");
            out
        },
        Expr::Call { func, args, span } => {
            let mut out = owned("Call { func: ");
            push_str(&mut out, expr_debug(&**func).as_str());
            push_str(&mut out, ", args: ");
            push_str(&mut out, args_debug(args).as_str());
            push_str(&mut out, ", span: ");
            push_str(&mut out, span_debug(span).as_str());
            push_str(&mut out, " }");
            out
        },
        Expr::Attribute { value, attr, span } => {
            let mut out = owned("Attribute { value: ");
            push_str(&mut out, expr_debug(&**value).as_str());
            push_str(&mut out, ", attr: ");
            push_str(&mut out, debug_quoted(attr.as_str()).as_str());
            push_str(&mut out, ", span: ");
            push_str(&mut out, span_debug(span).as_str());
            push_str(&mut out, " }");
            out
        },
        Expr::Index { value, index, span } => {
            let mut out = owned("Index { value: ");
            push_str(&mut out, expr_debug(&**value).as_str());
            push_str(&mut out, ", index: ");
            push_str(&mut out, expr_debug(&**index).as_str());
            push_str(&mut out, ", span: ");
            push_str(&mut out, span_debug(span).as_str());
            push_str(&mut out, " }");
            out
        },
        Expr::Paren { expr, span } => {
            let mut out = owned("Paren { expr: ");
            push_str(&mut out, expr_debug(&**expr).as_str());
            push_str(&mut out, ", span: ");
            push_str(&mut out, span_debug(span).as_str());
            push_str(&mut out, " }");
            out
        },
        Expr::FieldIndex { index, span } => {
            let mut out = owned("FieldIndex { index: ");
            push_str(&mut out, debug_quoted(index.as_str()).as_str());
            push_str(&mut out, ", span: ");
            push_str(&mut out, span_debug(span).as_str());
            push_str(&mut out, " }");
            out
        },
        Expr::List { elements, span } => {
            let mut out = owned("List { elements: ");
            push_str(&mut out, exprs_debug(elements).as_str());
            push_str(&mut out, ", span: ");
            push_str(&mut out, span_debug(span).as_str());
            push_str(&mut out, " }");
            out
        },
        Expr::Tuple { elements, span } => {
            let mut out = owned("Tuple { elements: ");
            push_str(&mut out, exprs_debug(elements).as_str());
            push_str(&mut out, ", span: ");
            push_str(&mut out, span_debug(span).as_str());
            push_str(&mut out, " }");
            out
        },
        Expr::Dict { entries, span } => {
            let mut out = owned("Dict { entries: ");
            push_str(&mut out, entries_debug(entries).as_str());
            push_str(&mut out, ", span: ");
            push_str(&mut out, span_debug(span).as_str());
            push_str(&mut out, " }");
            out
        },
        Expr::SetLiteral { elements, span } => {
            let mut out = owned("Set { elements: ");
            push_str(&mut out, exprs_debug(elements).as_str());
            push_str(&mut out, ", span: ");
            push_str(&mut out, span_debug(span).as_str());
            push_str(&mut out, " }");
            out
        },
        Expr::ListComp { element, target, iter, ifs, span } => {
            let mut out = owned("ListComp { element: ");
            push_str(&mut out, expr_debug(&**element).as_str());
            push_str(&mut out, ", target: ");
            push_str(&mut out, debug_quoted(target.as_str()).as_str());
            push_str(&mut out, ", iter: ");
            push_str(&mut out, expr_debug(&**iter).as_str());
            push_str(&mut out, ", ifs: ");
            push_str(&mut out, exprs_debug(ifs).as_str());
            push_str(&mut out, ", span: ");
            push_str(&mut out, span_debug(span).as_str());
            push_str(&mut out, " }");
            out
        },
        Expr::DictComp { key, value, target, iter, ifs, span } => {
            let mut out = owned("DictComp { key: ");
            push_str(&mut out, expr_debug(&**key).as_str());
            push_str(&mut out, ", value: ");
            push_str(&mut out, expr_debug(&**value).as_str());
            push_str(&mut out, ", target: ");
            push_str(&mut out, debug_quoted(target.as_str()).as_str());
            push_str(&mut out, ", iter: ");
            push_str(&mut out, expr_debug(&**iter).as_str());
            push_str(&mut out, ", ifs: ");
            push_str(&mut out, exprs_debug(ifs).as_str());
            push_str(&mut out, ", span: ");
            push_str(&mut out, span_debug(span).as_str());
            push_str(&mut out, " }");
            out
        },
        Expr::Slice { start, end, span } => {
            let mut out = owned("Slice { start: ");
            push_str(&mut out, opt_expr_debug(start).as_str());
            push_str(&mut out, ", end: ");
            push_str(&mut out, opt_expr_debug(end).as_str());
            push_str(&mut out, ", span: ");
            push_str(&mut out, span_debug(span).as_str());
            push_str(&mut out, " }");
            out
        },
    }
}

fn opt_expr_debug(o: &Option<Box<Expr>>) -> (r: String)
    ensures
        r@ == opt_expr_form(*o),
    decreases o, 0int,
{
    match o {
        Some(b) => {
            let mut out = owned("Some(");
            push_str(&mut out, expr_debug(&**b).as_str());
            push_str(&mut out, ")");
            out
        },
        None => owned("None"),
    }
}

fn arg_debug(a: &Argument) -> (r: String)
    ensures
        r@ == arg_form(*a),
    decreases a, 0int,
{
    match a {
        Argument::Positional { value, span } => {
            let mut out = owned("Positional { value: ");
            push_str(&mut out, expr_debug(value).as_str());
            push_str(&mut out, ", span: ");
            push_str(&mut out, span_debug(span).as_str());
            push_str(&mut out, " }");
            out
        },
        Argument::Keyword { name, value, span } => {
            let mut out = owned("Keyword { name: ");
            push_str(&mut out, debug_quoted(name.as_str()).as_str());
            push_str(&mut out, ", value: ");
            push_str(&mut out, expr_debug(value).as_str());
            push_str(&mut out, ", span: ");
            push_str(&mut out, span_debug(span).as_str());
            push_str(&mut out, " }");
            out
        },
        Argument::Star { value, span } => {
            let mut out = owned("Star { value: ");
            push_str(&mut out, expr_debug(value).as_str());
            push_str(&mut out, ", span: ");
            push_str(&mut out, span_debug(span).as_str());
            push_str(&mut out, " }");
            out
        },
        Argument::KwStar { value, span } => {
            let mut out = owned("KwStar { value: ");
            push_str(&mut out, expr_debug(value).as_str());
            push_str(&mut out, ", span: ");
            push_str(&mut out, span_debug(span).as_str());
            push_str(&mut out, " }");
            out
        },
    }
}

fn fpart_debug(p: &FStringPart) -> (r: String)
    ensures
        r@ == fpart_form(*p),
    decreases p, 0int,
{
    match p {
        FStringPart::Text(t) => {
            let mut out = owned("Text(");
            push_str(&mut out, debug_quoted(t.as_str()).as_str());
            push_str(&mut out, ")");
            out
        },
        FStringPart::Expr(b) => {
            let mut out = owned("Expr(");
            push_str(&mut out, expr_debug(&**b).as_str());
            push_str(&mut out, ")");
            out
        },
    }
}

fn subpart_debug(p: &SubprocessPart) -> (r: String)
    ensures
        r@ == subpart_form(*p),
    decreases p, 0int,
{
    match p {
        SubprocessPart::Text(t) => {
            let mut out = owned("Text(");
            push_str(&mut out, debug_quoted(t.as_str()).as_str());
            push_str(&mut out, ")");
            out
        },
        SubprocessPart::Expr(b) => {
            let mut out = owned("Expr(");
            push_str(&mut out, expr_debug(&**b).as_str());
            push_str(&mut out, ")");
            out
        },
    }
}

fn pattern_debug(p: &RegexPattern) -> (r: String)
    ensures
        r@ == pattern_form(*p),
    decreases p, 0int,
{
    match p {
        RegexPattern::Literal(t) => {
            let mut out = owned("Literal(");
            push_str(&mut out, debug_quoted(t.as_str()).as_str());
            push_str(&mut out, ")");
            out
        },
        RegexPattern::Interpolated(v) => {
            let mut out = owned("Interpolated(");
            push_str(&mut out, fparts_debug(v).as_str());
            push_str(&mut out, ")");
            out
        },
    }
}

fn exprs_debug(v: &Vec<Expr>) -> (r: String)
    ensures
        r@ == list_form(exprs_items(v@, v@.len() as int)),
    decreases v, 0int,
{
    let mut out = owned("[");
    let mut i: usize = 0;
    assert(out@ =~= "["@ + exprs_items(v@, 0));
    while i < v.len()
        invariant
            i <= v.len(),
            out@ == "["@ + exprs_items(v@, i as int),
        decreases v.len() - i,
    {
            proof {
                assert(decreases_to!(*v => v[i as int]));
            }
        let ghost before = out@;
        if i > 0 {
            push_str(&mut out, ", ");
        }
            push_str(&mut out, expr_debug(&v[i]).as_str());
        i += 1;
        assert(out@ =~= "["@ + exprs_items(v@, i as int));
    }
    push_str(&mut out, "]");
    out
}

fn entries_debug(v: &Vec<(Expr, Expr)>) -> (r: String)
    ensures
        r@ == list_form(entries_items(v@, v@.len() as int)),
    decreases v, 0int,
{
    let mut out = owned("[");
    let mut i: usize = 0;
    assert(out@ =~= "["@ + entries_items(v@, 0));
    while i < v.len()
        invariant
            i <= v.len(),
            out@ == "["@ + entries_items(v@, i as int),
        decreases v.len() - i,
    {
            proof {
                assert(decreases_to!(*v => v[i as int]));
                assert(decreases_to!(v[i as int] => v[i as int].0));
                assert(decreases_to!(v[i as int] => v[i as int].1));
            }
        let ghost before = out@;
        if i > 0 {
            push_str(&mut out, ", ");
        }
            push_str(&mut out, "(");
            push_str(&mut out, expr_debug(&v[i].0).as_str());
            push_str(&mut out, ", ");
            push_str(&mut out, expr_debug(&v[i].1).as_str());
            push_str(&mut out, ")");
        i += 1;
        assert(out@ =~= "["@ + entries_items(v@, i as int));
    }
    push_str(&mut out, "]");
    out
}

fn args_debug(v: &Vec<Argument>) -> (r: String)
    ensures
        r@ == list_form(args_items(v@, v@.len() as int)),
    decreases v, 0int,
{
    let mut out = owned("[");
    let mut i: usize = 0;
    assert(out@ =~= "["@ + args_items(v@, 0));
    while i < v.len()
        invariant
            i <= v.len(),
            out@ == "["@ + args_items(v@, i as int),
        decreases v.len() - i,
    {
            proof {
                assert(decreases_to!(*v => v[i as int]));
            }
        let ghost before = out@;
        if i > 0 {
            push_str(&mut out, ", ");
        }
            push_str(&mut out, arg_debug(&v[i]).as_str());
        i += 1;
        assert(out@ =~= "["@ + args_items(v@, i as int));
    }
    push_str(&mut out, "]");
    out
}

fn fparts_debug(v: &Vec<FStringPart>) -> (r: String)
    ensures
        r@ == list_form(fparts_items(v@, v@.len() as int)),
    decreases v, 0int,
{
    let mut out = owned("[");
    let mut i: usize = 0;
    assert(out@ =~= "["@ + fparts_items(v@, 0));
    while i < v.len()
        invariant
            i <= v.len(),
            out@ == "["@ + fparts_items(v@, i as int),
        decreases v.len() - i,
    {
            proof {
                assert(decreases_to!(*v => v[i as int]));
            }
        let ghost before = out@;
        if i > 0 {
            push_str(&mut out, ", ");
        }
            push_str(&mut out, fpart_debug(&v[i]).as_str());
        i += 1;
        assert(out@ =~= "["@ + fparts_items(v@, i as int));
    }
    push_str(&mut out, "]");
    out
}

fn subparts_debug(v: &Vec<SubprocessPart>) -> (r: String)
    ensures
        r@ == list_form(subparts_items(v@, v@.len() as int)),
    decreases v, 0int,
{
    let mut out = owned("[");
    let mut i: usize = 0;
    assert(out@ =~= "["@ + subparts_items(v@, 0));
    while i < v.len()
        invariant
            i <= v.len(),
            out@ == "["@ + subparts_items(v@, i as int),
        decreases v.len() - i,
    {
            proof {
                assert(decreases_to!(*v => v[i as int]));
            }
        let ghost before = out@;
        if i > 0 {
            push_str(&mut out, ", ");
        }
            push_str(&mut out, subpart_debug(&v[i]).as_str());
        i += 1;
        assert(out@ =~= "["@ + subparts_items(v@, i as int));
    }
    push_str(&mut out, "]");
    out
}

fn compare_ops_debug(v: &Vec<CompareOp>) -> (r: String)
    ensures
        r@ == list_form(compare_ops_items(v@, v@.len() as int)),
{
    let mut out = owned("[");
    let mut i: usize = 0;
    assert(out@ =~= "["@ + compare_ops_items(v@, 0));
    while i < v.len()
        invariant
            i <= v.len(),
            out@ == "["@ + compare_ops_items(v@, i as int),
        decreases v.len() - i,
    {
        let ghost before = out@;
        if i > 0 {
            push_str(&mut out, ", ");
        }
            push_str(&mut out, compare_debug(v[i]));
        i += 1;
        assert(out@ =~= "["@ + compare_ops_items(v@, i as int));
    }
    push_str(&mut out, "]");
    out
}


} // verus!
