//! The Snail syntax tree, as the parser produces it and the lowering pass
//! consumes it. Every node carries the span of source text it came from.
use vstd::prelude::*;

verus! {

/// A position in source text: byte offset, 1-based line and 1-based column.
#[derive(Debug, Clone, Copy, PartialEq, Eq)]
pub struct SourcePos {
    pub offset: usize,
    pub line: usize,
    pub column: usize,
}

/// A region of source text.
#[derive(Debug, Clone, Copy, PartialEq, Eq)]
pub struct SourceSpan {
    pub start: SourcePos,
    pub end: SourcePos,
}

#[derive(Debug, PartialEq)]
pub struct Program {
    pub stmts: Vec<Stmt>,
    pub span: SourceSpan,
}

#[derive(Debug, PartialEq)]
pub enum Stmt {
    If {
        cond: Expr,
        body: Vec<Stmt>,
        elifs: Vec<(Expr, Vec<Stmt>)>,
        else_body: Option<Vec<Stmt>>,
        span: SourceSpan,
    },
    While {
        cond: Expr,
        body: Vec<Stmt>,
        else_body: Option<Vec<Stmt>>,
        span: SourceSpan,
    },
    For {
        target: AssignTarget,
        iter: Expr,
        body: Vec<Stmt>,
        else_body: Option<Vec<Stmt>>,
        span: SourceSpan,
    },
    Def {
        name: String,
        params: Vec<Parameter>,
        body: Vec<Stmt>,
        span: SourceSpan,
    },
    Class {
        name: String,
        body: Vec<Stmt>,
        span: SourceSpan,
    },
    Try {
        body: Vec<Stmt>,
        handlers: Vec<ExceptHandler>,
        else_body: Option<Vec<Stmt>>,
        finally_body: Option<Vec<Stmt>>,
        span: SourceSpan,
    },
    With {
        items: Vec<WithItem>,
        body: Vec<Stmt>,
        span: SourceSpan,
    },
    Return {
        value: Option<Expr>,
        span: SourceSpan,
    },
    Raise {
        value: Option<Expr>,
        from: Option<Expr>,
        span: SourceSpan,
    },
    Assert {
        test: Expr,
        message: Option<Expr>,
        span: SourceSpan,
    },
    Delete {
        targets: Vec<AssignTarget>,
        span: SourceSpan,
    },
    Break {
        span: SourceSpan,
    },
    Continue {
        span: SourceSpan,
    },
    Pass {
        span: SourceSpan,
    },
    Import {
        items: Vec<ImportItem>,
        span: SourceSpan,
    },
    ImportFrom {
        module: Vec<String>,
        items: Vec<ImportItem>,
        span: SourceSpan,
    },
    Assign {
        targets: Vec<AssignTarget>,
        value: Expr,
        span: SourceSpan,
    },
    Expr {
        value: Expr,
        semicolon_terminated: bool,
        span: SourceSpan,
    },
}

#[derive(Debug, PartialEq)]
pub struct WithItem {
    pub context: Expr,
    pub target: Option<AssignTarget>,
    pub span: SourceSpan,
}

#[derive(Debug, PartialEq)]
pub struct ExceptHandler {
    pub exception_type: Option<Expr>,
    pub name: Option<String>,
    pub body: Vec<Stmt>,
    pub span: SourceSpan,
}

#[derive(Debug, PartialEq)]
pub struct ImportItem {
    pub name: Vec<String>,
    pub alias: Option<String>,
    pub span: SourceSpan,
}

#[derive(Debug, PartialEq)]
pub enum AssignTarget {
    Name { name: String, span: SourceSpan },
    Attribute { value: Box<Expr>, attr: String, span: SourceSpan },
    Index { value: Box<Expr>, index: Box<Expr>, span: SourceSpan },
}

#[derive(Debug, PartialEq)]
pub enum Expr {
    Name { name: String, span: SourceSpan },
    Number { value: String, span: SourceSpan },
    String { value: String, raw: bool, delimiter: StringDelimiter, span: SourceSpan },
    FString { parts: Vec<FStringPart>, span: SourceSpan },
    Bool { value: bool, span: SourceSpan },
    NoneLiteral { span: SourceSpan },
    Unary { op: UnaryOp, expr: Box<Expr>, span: SourceSpan },
    Binary { left: Box<Expr>, op: BinaryOp, right: Box<Expr>, span: SourceSpan },
    Compare { left: Box<Expr>, ops: Vec<CompareOp>, comparators: Vec<Expr>, span: SourceSpan },
    IfExpr { test: Box<Expr>, body: Box<Expr>, orelse: Box<Expr>, span: SourceSpan },
    TryExpr { expr: Box<Expr>, fallback: Option<Box<Expr>>, span: SourceSpan },
    Compound { expressions: Vec<Expr>, span: SourceSpan },
    Regex { pattern: RegexPattern, span: SourceSpan },
    RegexMatch { value: Box<Expr>, pattern: RegexPattern, span: SourceSpan },
    Subprocess { kind: SubprocessKind, parts: Vec<SubprocessPart>, span: SourceSpan },
    StructuredAccessor { query: String, span: SourceSpan },
    Call { func: Box<Expr>, args: Vec<Argument>, span: SourceSpan },
    Attribute { value: Box<Expr>, attr: String, span: SourceSpan },
    Index { value: Box<Expr>, index: Box<Expr>, span: SourceSpan },
    Paren { expr: Box<Expr>, span: SourceSpan },
    FieldIndex { index: String, span: SourceSpan },
    List { elements: Vec<Expr>, span: SourceSpan },
    Tuple { elements: Vec<Expr>, span: SourceSpan },
    Dict { entries: Vec<(Expr, Expr)>, span: SourceSpan },
    SetLiteral { elements: Vec<Expr>, span: SourceSpan },
    ListComp {
        element: Box<Expr>,
        target: String,
        iter: Box<Expr>,
        ifs: Vec<Expr>,
        span: SourceSpan,
    },
    DictComp {
        key: Box<Expr>,
        value: Box<Expr>,
        target: String,
        iter: Box<Expr>,
        ifs: Vec<Expr>,
        span: SourceSpan,
    },
    Slice { start: Option<Box<Expr>>, end: Option<Box<Expr>>, span: SourceSpan },
}

/// A piece of an interpolated string: literal text or an embedded expression.
#[derive(Debug, PartialEq)]
pub enum FStringPart {
    Text(String),
    Expr(Box<Expr>),
}

/// The body of a regex literal: plain text, or text with `{expr}` holes.
#[derive(Debug, PartialEq)]
pub enum RegexPattern {
    Literal(String),
    Interpolated(Vec<FStringPart>),
}

/// `$(cmd)` captures output; `@(cmd)` yields the exit status.
#[derive(Debug, Clone, Copy, PartialEq, Eq)]
pub enum SubprocessKind {
    Capture,
    Status,
}

#[derive(Debug, PartialEq)]
pub enum SubprocessPart {
    Text(String),
    Expr(Box<Expr>),
}

#[derive(Debug, Clone, Copy, PartialEq, Eq)]
pub enum StringDelimiter {
    Single,
    Double,
    TripleSingle,
    TripleDouble,
}

#[derive(Debug, PartialEq)]
pub enum Parameter {
    Regular { name: String, default: Option<Expr>, span: SourceSpan },
    VarArgs { name: String, span: SourceSpan },
    KwArgs { name: String, span: SourceSpan },
}

#[derive(Debug, PartialEq)]
pub enum Argument {
    Positional { value: Expr, span: SourceSpan },
    Keyword { name: String, value: Expr, span: SourceSpan },
    Star { value: Expr, span: SourceSpan },
    KwStar { value: Expr, span: SourceSpan },
}

#[derive(Debug, Clone, Copy, PartialEq, Eq)]
pub enum UnaryOp {
    Plus,
    Minus,
    Not,
}

#[derive(Debug, Clone, Copy, PartialEq, Eq)]
pub enum BinaryOp {
    Or,
    And,
    Add,
    Sub,
    Mul,
    Div,
    FloorDiv,
    Mod,
    Pow,
    Pipeline,
}

#[derive(Debug, Clone, Copy, PartialEq, Eq)]
pub enum CompareOp {
    Eq,
    NotEq,
    Lt,
    LtEq,
    Gt,
    GtEq,
    In,
    Is,
}

/// An awk-mode program: `BEGIN` blocks, pattern/action rules and `END` blocks.
#[derive(Debug, PartialEq)]
pub struct AwkProgram {
    pub begin_blocks: Vec<Vec<Stmt>>,
    pub rules: Vec<AwkRule>,
    pub end_blocks: Vec<Vec<Stmt>>,
    pub span: SourceSpan,
}

/// One awk rule: an optional pattern and an optional action block.
#[derive(Debug, PartialEq)]
pub struct AwkRule {
    pub pattern: Option<Expr>,
    pub action: Option<Vec<Stmt>>,
    pub span: SourceSpan,
}

impl AwkRule {
    /// Whether the rule was written with an action block.
    pub fn has_explicit_action(&self) -> (r: bool)
        ensures
            r == self.action is Some,
    {
        self.action.is_some()
    }
}

/// The span of source text that an expression covers.
pub open spec fn expr_span_of(e: Expr) -> SourceSpan {
    match e {
        Expr::Name { span, .. } => span,
        Expr::Number { span, .. } => span,
        Expr::String { span, .. } => span,
        Expr::FString { span, .. } => span,
        Expr::Bool { span, .. } => span,
        Expr::NoneLiteral { span } => span,
        Expr::Unary { span, .. } => span,
        Expr::Binary { span, .. } => span,
        Expr::Compare { span, .. } => span,
        Expr::IfExpr { span, .. } => span,
        Expr::TryExpr { span, .. } => span,
        Expr::Compound { span, .. } => span,
        Expr::Regex { span, .. } => span,
        Expr::RegexMatch { span, .. } => span,
        Expr::Subprocess { span, .. } => span,
        Expr::StructuredAccessor { span, .. } => span,
        Expr::Call { span, .. } => span,
        Expr::Attribute { span, .. } => span,
        Expr::Index { span, .. } => span,
        Expr::Paren { span, .. } => span,
        Expr::FieldIndex { span, .. } => span,
        Expr::List { span, .. } => span,
        Expr::Tuple { span, .. } => span,
        Expr::Dict { span, .. } => span,
        Expr::SetLiteral { span, .. } => span,
        Expr::ListComp { span, .. } => span,
        Expr::DictComp { span, .. } => span,
        Expr::Slice { span, .. } => span,
    }
}

} // verus!
