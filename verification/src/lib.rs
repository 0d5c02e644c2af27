//! Snail: a curly-brace scripting language that compiles to Python.
pub mod ast;
pub mod constants;
pub mod debug_form;
pub mod emit;
pub mod emit_expr;
pub mod error;
pub mod fill;
pub mod format;
pub mod fstring;
pub mod lexing;
pub mod lower;
pub mod lower_awk;
pub mod lower_map;
pub mod lower_stmt;
pub mod placeholder;
pub mod pyast;
pub mod shift;
pub mod source_pos;
pub mod spelling;
pub mod syntax;
pub mod text;
pub mod usage;
pub mod utils;
pub mod wrap;

pub use ast::{
    Argument, AssignTarget, AwkProgram, AwkRule, BinaryOp, CompareOp, ExceptHandler, Expr,
    FStringPart, ImportItem, Parameter, Program, RegexPattern, SourcePos, SourceSpan, Stmt,
    StringDelimiter, SubprocessKind, SubprocessPart, UnaryOp, WithItem,
};
pub use emit::{JmespathSources, python_source, python_source_with_auto_print};
pub use error::{ParseError, SnailError};
pub use format::{format_snail_source, unified_diff};
pub use lower::LowerError;
pub use lower_awk::{lower_awk_program, lower_awk_program_with_auto_print};
pub use lower_stmt::lower_program;
pub use pyast::{
    PyArgument, PyBinaryOp, PyCompareOp, PyExceptHandler, PyExpr, PyFStringPart, PyImportName,
    PyModule, PyParameter, PyStmt, PyUnaryOp, PyWithItem,
};
pub use utils::Size;
