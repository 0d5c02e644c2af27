//! The Python syntax tree that the lowering pass produces, together with its
//! mathematical model: each executable node has a view in which strings are
//! character sequences and vectors are sequences.
use vstd::prelude::*;
use crate::ast::{SourceSpan, StringDelimiter};

verus! {

#[derive(Debug, PartialEq)]
pub struct PyModule {
    pub body: Vec<PyStmt>,
    pub span: SourceSpan,
}

#[derive(Debug, PartialEq)]
pub enum PyStmt {
    If { test: PyExpr, body: Vec<PyStmt>, orelse: Vec<PyStmt>, span: SourceSpan },
    While { test: PyExpr, body: Vec<PyStmt>, orelse: Vec<PyStmt>, span: SourceSpan },
    For { target: PyExpr, iter: PyExpr, body: Vec<PyStmt>, orelse: Vec<PyStmt>, span: SourceSpan },
    FunctionDef { name: String, args: Vec<PyParameter>, body: Vec<PyStmt>, span: SourceSpan },
    ClassDef { name: String, body: Vec<PyStmt>, span: SourceSpan },
    Try {
        body: Vec<PyStmt>,
        handlers: Vec<PyExceptHandler>,
        orelse: Vec<PyStmt>,
        finalbody: Vec<PyStmt>,
        span: SourceSpan,
    },
    With { items: Vec<PyWithItem>, body: Vec<PyStmt>, span: SourceSpan },
    Return { value: Option<PyExpr>, span: SourceSpan },
    Raise { value: Option<PyExpr>, from: Option<PyExpr>, span: SourceSpan },
    Assert { test: PyExpr, message: Option<PyExpr>, span: SourceSpan },
    Delete { targets: Vec<PyExpr>, span: SourceSpan },
    Break { span: SourceSpan },
    Continue { span: SourceSpan },
    Pass { span: SourceSpan },
    Import { names: Vec<PyImportName>, span: SourceSpan },
    ImportFrom { module: Vec<String>, names: Vec<PyImportName>, span: SourceSpan },
    Assign { targets: Vec<PyExpr>, value: PyExpr, span: SourceSpan },
    Expr { value: PyExpr, semicolon_terminated: bool, span: SourceSpan },
}

#[derive(Debug, PartialEq)]
pub struct PyExceptHandler {
    pub exception_type: Option<PyExpr>,
    pub name: Option<String>,
    pub body: Vec<PyStmt>,
    pub span: SourceSpan,
}

#[derive(Debug, PartialEq)]
pub struct PyWithItem {
    pub context: PyExpr,
    pub target: Option<PyExpr>,
    pub span: SourceSpan,
}

#[derive(Debug, PartialEq)]
pub struct PyImportName {
    pub name: Vec<String>,
    pub asname: Option<String>,
    pub span: SourceSpan,
}

#[derive(Debug, PartialEq)]
pub enum PyExpr {
    Name { id: String, span: SourceSpan },
    Number { value: String, span: SourceSpan },
    String { value: String, raw: bool, delimiter: StringDelimiter, span: SourceSpan },
    FString { parts: Vec<PyFStringPart>, span: SourceSpan },
    Bool { value: bool, span: SourceSpan },
    NoneLiteral { span: SourceSpan },
    Unary { op: PyUnaryOp, operand: Box<PyExpr>, span: SourceSpan },
    Binary { left: Box<PyExpr>, op: PyBinaryOp, right: Box<PyExpr>, span: SourceSpan },
    Compare {
        left: Box<PyExpr>,
        ops: Vec<PyCompareOp>,
        comparators: Vec<PyExpr>,
        span: SourceSpan,
    },
    IfExpr { test: Box<PyExpr>, body: Box<PyExpr>, orelse: Box<PyExpr>, span: SourceSpan },
    Lambda { params: Vec<String>, body: Box<PyExpr>, span: SourceSpan },
    Call { func: Box<PyExpr>, args: Vec<PyArgument>, span: SourceSpan },
    Attribute { value: Box<PyExpr>, attr: String, span: SourceSpan },
    Index { value: Box<PyExpr>, index: Box<PyExpr>, span: SourceSpan },
    Paren { expr: Box<PyExpr>, span: SourceSpan },
    List { elements: Vec<PyExpr>, span: SourceSpan },
    Tuple { elements: Vec<PyExpr>, span: SourceSpan },
    Dict { entries: Vec<(PyExpr, PyExpr)>, span: SourceSpan },
    SetLiteral { elements: Vec<PyExpr>, span: SourceSpan },
    ListComp {
        element: Box<PyExpr>,
        target: String,
        iter: Box<PyExpr>,
        ifs: Vec<PyExpr>,
        span: SourceSpan,
    },
    DictComp {
        key: Box<PyExpr>,
        value: Box<PyExpr>,
        target: String,
        iter: Box<PyExpr>,
        ifs: Vec<PyExpr>,
        span: SourceSpan,
    },
    Slice { start: Option<Box<PyExpr>>, end: Option<Box<PyExpr>>, span: SourceSpan },
}

#[derive(Debug, PartialEq)]
pub enum PyFStringPart {
    Text(String),
    Expr(PyExpr),
}

#[derive(Debug, PartialEq)]
pub enum PyParameter {
    Regular { name: String, default: Option<PyExpr>, span: SourceSpan },
    VarArgs { name: String, span: SourceSpan },
    KwArgs { name: String, span: SourceSpan },
}

#[derive(Debug, PartialEq)]
pub enum PyArgument {
    Positional { value: PyExpr, span: SourceSpan },
    Keyword { name: String, value: PyExpr, span: SourceSpan },
    Star { value: PyExpr, span: SourceSpan },
    KwStar { value: PyExpr, span: SourceSpan },
}

#[derive(Debug, Clone, Copy, PartialEq, Eq)]
pub enum PyUnaryOp {
    Plus,
    Minus,
    Not,
}

#[derive(Debug, Clone, Copy, PartialEq, Eq)]
pub enum PyBinaryOp {
    Or,
    And,
    Add,
    Sub,
    Mul,
    Div,
    FloorDiv,
    Mod,
    Pow,
}

#[derive(Debug, Clone, Copy, PartialEq, Eq)]
pub enum PyCompareOp {
    Eq,
    NotEq,
    Lt,
    LtEq,
    Gt,
    GtEq,
    In,
    Is,
}

// ---------------------------------------------------------------------------
// The model of the Python tree.

pub struct SpecPyModule {
    pub body: Seq<SpecPyStmt>,
    pub span: SourceSpan,
}

pub enum SpecPyStmt {
    If { test: SpecPyExpr, body: Seq<SpecPyStmt>, orelse: Seq<SpecPyStmt>, span: SourceSpan },
    While { test: SpecPyExpr, body: Seq<SpecPyStmt>, orelse: Seq<SpecPyStmt>, span: SourceSpan },
    For {
        target: SpecPyExpr,
        iter: SpecPyExpr,
        body: Seq<SpecPyStmt>,
        orelse: Seq<SpecPyStmt>,
        span: SourceSpan,
    },
    FunctionDef {
        name: Seq<char>,
        args: Seq<SpecPyParameter>,
        body: Seq<SpecPyStmt>,
        span: SourceSpan,
    },
    ClassDef { name: Seq<char>, body: Seq<SpecPyStmt>, span: SourceSpan },
    Try {
        body: Seq<SpecPyStmt>,
        handlers: Seq<SpecPyExceptHandler>,
        orelse: Seq<SpecPyStmt>,
        finalbody: Seq<SpecPyStmt>,
        span: SourceSpan,
    },
    With { items: Seq<SpecPyWithItem>, body: Seq<SpecPyStmt>, span: SourceSpan },
    Return { value: Option<SpecPyExpr>, span: SourceSpan },
    Raise { value: Option<SpecPyExpr>, from: Option<SpecPyExpr>, span: SourceSpan },
    Assert { test: SpecPyExpr, message: Option<SpecPyExpr>, span: SourceSpan },
    Delete { targets: Seq<SpecPyExpr>, span: SourceSpan },
    Break { span: SourceSpan },
    Continue { span: SourceSpan },
    Pass { span: SourceSpan },
    Import { names: Seq<SpecPyImportName>, span: SourceSpan },
    ImportFrom { module: Seq<Seq<char>>, names: Seq<SpecPyImportName>, span: SourceSpan },
    Assign { targets: Seq<SpecPyExpr>, value: SpecPyExpr, span: SourceSpan },
    Expr { value: SpecPyExpr, semicolon_terminated: bool, span: SourceSpan },
}

pub struct SpecPyExceptHandler {
    pub exception_type: Option<SpecPyExpr>,
    pub name: Option<Seq<char>>,
    pub body: Seq<SpecPyStmt>,
    pub span: SourceSpan,
}

pub struct SpecPyWithItem {
    pub context: SpecPyExpr,
    pub target: Option<SpecPyExpr>,
    pub span: SourceSpan,
}

pub struct SpecPyImportName {
    pub name: Seq<Seq<char>>,
    pub asname: Option<Seq<char>>,
    pub span: SourceSpan,
}

pub enum SpecPyExpr {
    Name { id: Seq<char>, span: SourceSpan },
    Number { value: Seq<char>, span: SourceSpan },
    String { value: Seq<char>, raw: bool, delimiter: StringDelimiter, span: SourceSpan },
    FString { parts: Seq<SpecPyFStringPart>, span: SourceSpan },
    Bool { value: bool, span: SourceSpan },
    NoneLiteral { span: SourceSpan },
    Unary { op: PyUnaryOp, operand: Box<SpecPyExpr>, span: SourceSpan },
    Binary { left: Box<SpecPyExpr>, op: PyBinaryOp, right: Box<SpecPyExpr>, span: SourceSpan },
    Compare {
        left: Box<SpecPyExpr>,
        ops: Seq<PyCompareOp>,
        comparators: Seq<SpecPyExpr>,
        span: SourceSpan,
    },
    IfExpr {
        test: Box<SpecPyExpr>,
        body: Box<SpecPyExpr>,
        orelse: Box<SpecPyExpr>,
        span: SourceSpan,
    },
    Lambda { params: Seq<Seq<char>>, body: Box<SpecPyExpr>, span: SourceSpan },
    Call { func: Box<SpecPyExpr>, args: Seq<SpecPyArgument>, span: SourceSpan },
    Attribute { value: Box<SpecPyExpr>, attr: Seq<char>, span: SourceSpan },
    Index { value: Box<SpecPyExpr>, index: Box<SpecPyExpr>, span: SourceSpan },
    Paren { expr: Box<SpecPyExpr>, span: SourceSpan },
    List { elements: Seq<SpecPyExpr>, span: SourceSpan },
    Tuple { elements: Seq<SpecPyExpr>, span: SourceSpan },
    Dict { entries: Seq<(SpecPyExpr, SpecPyExpr)>, span: SourceSpan },
    SetLiteral { elements: Seq<SpecPyExpr>, span: SourceSpan },
    ListComp {
        element: Box<SpecPyExpr>,
        target: Seq<char>,
        iter: Box<SpecPyExpr>,
        ifs: Seq<SpecPyExpr>,
        span: SourceSpan,
    },
    DictComp {
        key: Box<SpecPyExpr>,
        value: Box<SpecPyExpr>,
        target: Seq<char>,
        iter: Box<SpecPyExpr>,
        ifs: Seq<SpecPyExpr>,
        span: SourceSpan,
    },
    Slice { start: Option<Box<SpecPyExpr>>, end: Option<Box<SpecPyExpr>>, span: SourceSpan },
}

pub enum SpecPyFStringPart {
    Text(Seq<char>),
    Expr(SpecPyExpr),
}

pub enum SpecPyParameter {
    Regular { name: Seq<char>, default: Option<SpecPyExpr>, span: SourceSpan },
    VarArgs { name: Seq<char>, span: SourceSpan },
    KwArgs { name: Seq<char>, span: SourceSpan },
}

pub enum SpecPyArgument {
    Positional { value: SpecPyExpr, span: SourceSpan },
    Keyword { name: Seq<char>, value: SpecPyExpr, span: SourceSpan },
    Star { value: SpecPyExpr, span: SourceSpan },
    KwStar { value: SpecPyExpr, span: SourceSpan },
}

/// The characters of each string in a vector.
pub open spec fn strings_view(v: Vec<String>) -> Seq<Seq<char>> {
    Seq::new(v.len() as nat, |i: int| v[i]@)
}

pub open spec fn opt_string_view(o: Option<String>) -> Option<Seq<char>> {
    match o {
        Some(s) => Some(s@),
        None => None,
    }
}

pub open spec fn view_expr(e: PyExpr) -> SpecPyExpr
    decreases e, 0int,
{
    match e {
        PyExpr::Name { id, span } => SpecPyExpr::Name { id: id@, span },
        PyExpr::Number { value, span } => SpecPyExpr::Number { value: value@, span },
        PyExpr::String { value, raw, delimiter, span } => SpecPyExpr::String {
            value: value@,
            raw,
            delimiter,
            span,
        },
        PyExpr::FString { parts, span } => SpecPyExpr::FString {
            parts: Seq::new(
                parts.len() as nat,
                |i: int|
                    if 0 <= i < parts.len() {
                        view_fstring_part(parts[i])
                    } else {
                        SpecPyFStringPart::Text(Seq::empty())
                    },
            ),
            span,
        },
        PyExpr::Bool { value, span } => SpecPyExpr::Bool { value, span },
        PyExpr::NoneLiteral { span } => SpecPyExpr::NoneLiteral { span },
        PyExpr::Unary { op, operand, span } => SpecPyExpr::Unary {
            op,
            operand: Box::new(view_expr(*operand)),
            span,
        },
        PyExpr::Binary { left, op, right, span } => SpecPyExpr::Binary {
            left: Box::new(view_expr(*left)),
            op,
            right: Box::new(view_expr(*right)),
            span,
        },
        PyExpr::Compare { left, ops, comparators, span } => SpecPyExpr::Compare {
            left: Box::new(view_expr(*left)),
            ops: ops@,
            comparators: view_exprs(comparators),
            span,
        },
        PyExpr::IfExpr { test, body, orelse, span } => SpecPyExpr::IfExpr {
            test: Box::new(view_expr(*test)),
            body: Box::new(view_expr(*body)),
            orelse: Box::new(view_expr(*orelse)),
            span,
        },
        PyExpr::Lambda { params, body, span } => SpecPyExpr::Lambda {
            params: strings_view(params),
            body: Box::new(view_expr(*body)),
            span,
        },
        PyExpr::Call { func, args, span } => SpecPyExpr::Call {
            func: Box::new(view_expr(*func)),
            args: Seq::new(
                args.len() as nat,
                |i: int|
                    if 0 <= i < args.len() {
                        view_argument(args[i])
                    } else {
                        SpecPyArgument::Star { value: SpecPyExpr::NoneLiteral { span }, span }
                    },
            ),
            span,
        },
        PyExpr::Attribute { value, attr, span } => SpecPyExpr::Attribute {
            value: Box::new(view_expr(*value)),
            attr: attr@,
            span,
        },
        PyExpr::Index { value, index, span } => SpecPyExpr::Index {
            value: Box::new(view_expr(*value)),
            index: Box::new(view_expr(*index)),
            span,
        },
        PyExpr::Paren { expr, span } => SpecPyExpr::Paren {
            expr: Box::new(view_expr(*expr)),
            span,
        },
        PyExpr::List { elements, span } => SpecPyExpr::List {
            elements: view_exprs(elements),
            span,
        },
        PyExpr::Tuple { elements, span } => SpecPyExpr::Tuple {
            elements: view_exprs(elements),
            span,
        },
        PyExpr::Dict { entries, span } => SpecPyExpr::Dict {
            entries: Seq::new(
                entries.len() as nat,
                |i: int|
                    if 0 <= i < entries.len() {
                        (view_expr(entries[i].0), view_expr(entries[i].1))
                    } else {
                        (SpecPyExpr::NoneLiteral { span }, SpecPyExpr::NoneLiteral { span })
                    },
            ),
            span,
        },
        PyExpr::SetLiteral { elements, span } => SpecPyExpr::SetLiteral {
            elements: view_exprs(elements),
            span,
        },
        PyExpr::ListComp { element, target, iter, ifs, span } => SpecPyExpr::ListComp {
            element: Box::new(view_expr(*element)),
            target: target@,
            iter: Box::new(view_expr(*iter)),
            ifs: view_exprs(ifs),
            span,
        },
        PyExpr::DictComp { key, value, target, iter, ifs, span } => SpecPyExpr::DictComp {
            key: Box::new(view_expr(*key)),
            value: Box::new(view_expr(*value)),
            target: target@,
            iter: Box::new(view_expr(*iter)),
            ifs: view_exprs(ifs),
            span,
        },
        PyExpr::Slice { start, end, span } => SpecPyExpr::Slice {
            start: match start {
                Some(b) => Some(Box::new(view_expr(*b))),
                None => None,
            },
            end: match end {
                Some(b) => Some(Box::new(view_expr(*b))),
                None => None,
            },
            span,
        },
    }
}

pub open spec fn view_exprs(v: Vec<PyExpr>) -> Seq<SpecPyExpr>
    decreases v, 1int,
{
    Seq::new(
        v.len() as nat,
        |i: int|
            if 0 <= i < v.len() {
                view_expr(v[i])
            } else {
                SpecPyExpr::NoneLiteral {
                    span: SourceSpan {
                        start: crate::ast::SourcePos { offset: 0, line: 0, column: 0 },
                        end: crate::ast::SourcePos { offset: 0, line: 0, column: 0 },
                    },
                }
            },
    )
}

pub open spec fn view_fstring_part(p: PyFStringPart) -> SpecPyFStringPart
    decreases p, 0int,
{
    match p {
        PyFStringPart::Text(t) => SpecPyFStringPart::Text(t@),
        PyFStringPart::Expr(e) => SpecPyFStringPart::Expr(view_expr(e)),
    }
}

pub open spec fn view_argument(a: PyArgument) -> SpecPyArgument
    decreases a, 0int,
{
    match a {
        PyArgument::Positional { value, span } => SpecPyArgument::Positional {
            value: view_expr(value),
            span,
        },
        PyArgument::Keyword { name, value, span } => SpecPyArgument::Keyword {
            name: name@,
            value: view_expr(value),
            span,
        },
        PyArgument::Star { value, span } => SpecPyArgument::Star { value: view_expr(value), span },
        PyArgument::KwStar { value, span } => SpecPyArgument::KwStar {
            value: view_expr(value),
            span,
        },
    }
}

impl View for PyExpr {
    type V = SpecPyExpr;

    open spec fn view(&self) -> SpecPyExpr {
        view_expr(*self)
    }
}

impl View for PyFStringPart {
    type V = SpecPyFStringPart;

    open spec fn view(&self) -> SpecPyFStringPart {
        view_fstring_part(*self)
    }
}

impl View for PyArgument {
    type V = SpecPyArgument;

    open spec fn view(&self) -> SpecPyArgument {
        view_argument(*self)
    }
}

pub open spec fn view_opt_expr(o: Option<PyExpr>) -> Option<SpecPyExpr> {
    match o {
        Some(e) => Some(view_expr(e)),
        None => None,
    }
}

pub open spec fn view_parameter(p: PyParameter) -> SpecPyParameter {
    match p {
        PyParameter::Regular { name, default, span } => SpecPyParameter::Regular {
            name: name@,
            default: view_opt_expr(default),
            span,
        },
        PyParameter::VarArgs { name, span } => SpecPyParameter::VarArgs { name: name@, span },
        PyParameter::KwArgs { name, span } => SpecPyParameter::KwArgs { name: name@, span },
    }
}

pub open spec fn view_import_name(n: PyImportName) -> SpecPyImportName {
    SpecPyImportName { name: strings_view(n.name), asname: opt_string_view(n.asname), span: n.span }
}

pub open spec fn view_with_item(w: PyWithItem) -> SpecPyWithItem {
    SpecPyWithItem {
        context: view_expr(w.context),
        target: view_opt_expr(w.target),
        span: w.span,
    }
}

pub open spec fn view_stmt(s: PyStmt) -> SpecPyStmt
    decreases s, 0int,
{
    match s {
        PyStmt::If { test, body, orelse, span } => SpecPyStmt::If {
            test: view_expr(test),
            body: view_stmts(body),
            orelse: view_stmts(orelse),
            span,
        },
        PyStmt::While { test, body, orelse, span } => SpecPyStmt::While {
            test: view_expr(test),
            body: view_stmts(body),
            orelse: view_stmts(orelse),
            span,
        },
        PyStmt::For { target, iter, body, orelse, span } => SpecPyStmt::For {
            target: view_expr(target),
            iter: view_expr(iter),
            body: view_stmts(body),
            orelse: view_stmts(orelse),
            span,
        },
        PyStmt::FunctionDef { name, args, body, span } => SpecPyStmt::FunctionDef {
            name: name@,
            args: Seq::new(args.len() as nat, |i: int| view_parameter(args[i])),
            body: view_stmts(body),
            span,
        },
        PyStmt::ClassDef { name, body, span } => SpecPyStmt::ClassDef {
            name: name@,
            body: view_stmts(body),
            span,
        },
        PyStmt::Try { body, handlers, orelse, finalbody, span } => SpecPyStmt::Try {
            body: view_stmts(body),
            handlers: Seq::new(
                handlers.len() as nat,
                |i: int|
                    if 0 <= i < handlers.len() {
                        view_handler(handlers[i])
                    } else {
                        SpecPyExceptHandler {
                            exception_type: None,
                            name: None,
                            body: Seq::empty(),
                            span,
                        }
                    },
            ),
            orelse: view_stmts(orelse),
            finalbody: view_stmts(finalbody),
            span,
        },
        PyStmt::With { items, body, span } => SpecPyStmt::With {
            items: Seq::new(items.len() as nat, |i: int| view_with_item(items[i])),
            body: view_stmts(body),
            span,
        },
        PyStmt::Return { value, span } => SpecPyStmt::Return { value: view_opt_expr(value), span },
        PyStmt::Raise { value, from, span } => SpecPyStmt::Raise {
            value: view_opt_expr(value),
            from: view_opt_expr(from),
            span,
        },
        PyStmt::Assert { test, message, span } => SpecPyStmt::Assert {
            test: view_expr(test),
            message: view_opt_expr(message),
            span,
        },
        PyStmt::Delete { targets, span } => SpecPyStmt::Delete {
            targets: view_exprs(targets),
            span,
        },
        PyStmt::Break { span } => SpecPyStmt::Break { span },
        PyStmt::Continue { span } => SpecPyStmt::Continue { span },
        PyStmt::Pass { span } => SpecPyStmt::Pass { span },
        PyStmt::Import { names, span } => SpecPyStmt::Import {
            names: Seq::new(names.len() as nat, |i: int| view_import_name(names[i])),
            span,
        },
        PyStmt::ImportFrom { module, names, span } => SpecPyStmt::ImportFrom {
            module: strings_view(module),
            names: Seq::new(names.len() as nat, |i: int| view_import_name(names[i])),
            span,
        },
        PyStmt::Assign { targets, value, span } => SpecPyStmt::Assign {
            targets: view_exprs(targets),
            value: view_expr(value),
            span,
        },
        PyStmt::Expr { value, semicolon_terminated, span } => SpecPyStmt::Expr {
            value: view_expr(value),
            semicolon_terminated,
            span,
        },
    }
}

pub open spec fn view_stmts(v: Vec<PyStmt>) -> Seq<SpecPyStmt>
    decreases v, 1int,
{
    Seq::new(
        v.len() as nat,
        |i: int|
            if 0 <= i < v.len() {
                view_stmt(v[i])
            } else {
                SpecPyStmt::Pass {
                    span: SourceSpan {
                        start: crate::ast::SourcePos { offset: 0, line: 0, column: 0 },
                        end: crate::ast::SourcePos { offset: 0, line: 0, column: 0 },
                    },
                }
            },
    )
}

/// The statement blocks of a list of blocks, each by its view.
pub open spec fn view_blocks(v: Vec<Vec<PyStmt>>) -> Seq<Seq<SpecPyStmt>> {
    Seq::new(v.len() as nat, |i: int| view_stmts(v[i]))
}

pub open spec fn view_handler(h: PyExceptHandler) -> SpecPyExceptHandler
    decreases h, 0int,
{
    SpecPyExceptHandler {
        exception_type: view_opt_expr(h.exception_type),
        name: opt_string_view(h.name),
        body: view_stmts(h.body),
        span: h.span,
    }
}

impl View for PyStmt {
    type V = SpecPyStmt;

    open spec fn view(&self) -> SpecPyStmt {
        view_stmt(*self)
    }
}

impl View for PyModule {
    type V = SpecPyModule;

    open spec fn view(&self) -> SpecPyModule {
        SpecPyModule { body: view_stmts(self.body), span: self.span }
    }
}

} // verus!
