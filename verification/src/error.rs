//! The errors of the compiler: a parse error that can point into the source
//! line it was found on, and the union of parse and lowering errors.
use vstd::prelude::*;
use crate::ast::SourceSpan;
use crate::lower::LowerError;
use crate::text::{nat_text, owned, push_char, push_chars, push_str, u64_text};

verus! {

/// A syntax error, with where it was found and the text of that line when
/// they are known.
#[derive(Debug, Clone)]
pub struct ParseError {
    pub message: String,
    pub span: Option<SourceSpan>,
    pub line_text: Option<String>,
}

/// `n` spaces.
pub open spec fn spaces(n: nat) -> Seq<char>
    decreases n,
{
    if n == 0 {
        Seq::empty()
    } else {
        spaces((n - 1) as nat).push(' ')
    }
}

/// How a parse error reads: the message; then, when its place is known,
/// `--> line:column`; then, when the line is known too, the line and a caret
/// under the column (columns count from 1).
pub open spec fn parse_error_text(e: ParseError) -> Seq<char> {
    e.message@ + seq!['\n'] + match e.span {
        Some(span) => "--> "@ + nat_text(span.start.line as nat) + seq![':'] + nat_text(
            span.start.column as nat,
        ) + seq!['\n'] + match e.line_text {
            Some(line) => line@ + seq!['\n'] + spaces(
                (if span.start.column >= 1 {
                    span.start.column - 1
                } else {
                    0
                }) as nat,
            ) + seq!['^', '\n'],
            None => Seq::empty(),
        },
        None => Seq::empty(),
    }
}

impl ParseError {
    /// An error with a message and no place.
    pub fn new(message: &str) -> (r: Self)
        ensures
            r.message@ == message@,
            r.span is None,
            r.line_text is None,
    {
        ParseError { message: owned(message), span: None, line_text: None }
    }

    /// The error as it is shown to the user.
    pub fn to_string(&self) -> (r: String)
        ensures
            r@ == parse_error_text(*self),
    {
        let mut out = String::new();
        push_str(&mut out, self.message.as_str());
        push_char(&mut out, '\n');
        match &self.span {
            Some(span) => {
                push_str(&mut out, "--> ");
                push_chars(&mut out, &u64_text(span.start.line as u64));
                push_char(&mut out, ':');
                push_chars(&mut out, &u64_text(span.start.column as u64));
                push_char(&mut out, '\n');
                match &self.line_text {
                    Some(line) => {
                        push_str(&mut out, line.as_str());
                        push_char(&mut out, '\n');
                        let col = if span.start.column >= 1 {
                            span.start.column - 1
                        } else {
                            0
                        };
                        let ghost before = out@;
                        let mut k: usize = 0;
                        while k < col
                            invariant
                                k <= col,
                                out@ == before + spaces(k as nat),
                            decreases col - k,
                        {
                            push_char(&mut out, ' ');
                            k += 1;
                        }
                        push_char(&mut out, '^');
                        push_char(&mut out, '\n');
                    },
                    None => {},
                }
            },
            None => {},
        }
        assert(out@ =~= parse_error_text(*self));
        out
    }
}

impl LowerError {
    /// The error as it is shown to the user: its message.
    pub fn to_string(&self) -> (r: String)
        ensures
            r@ == self.message@,
    {
        self.message.clone()
    }
}

/// An error of either compiler pass.
#[derive(Debug)]
pub enum SnailError {
    Parse(ParseError),
    Lower(LowerError),
}

pub open spec fn snail_error_text(e: SnailError) -> Seq<char> {
    match e {
        SnailError::Parse(p) => parse_error_text(p),
        SnailError::Lower(l) => l.message@,
    }
}

impl SnailError {
    /// The error as it is shown to the user: that of the error it holds.
    pub fn to_string(&self) -> (r: String)
        ensures
            r@ == snail_error_text(*self),
    {
        match self {
            SnailError::Parse(err) => err.to_string(),
            SnailError::Lower(err) => err.to_string(),
        }
    }
}

impl From<ParseError> for SnailError {
    fn from(value: ParseError) -> (r: Self) {
        SnailError::Parse(value)
    }
}

impl vstd::std_specs::convert::FromSpecImpl<ParseError> for SnailError {
    open spec fn obeys_from_spec() -> bool {
        true
    }

    open spec fn from_spec(v: ParseError) -> SnailError {
        SnailError::Parse(v)
    }
}

impl From<LowerError> for SnailError {
    fn from(value: LowerError) -> (r: Self) {
        SnailError::Lower(value)
    }
}

impl vstd::std_specs::convert::FromSpecImpl<LowerError> for SnailError {
    open spec fn obeys_from_spec() -> bool {
        true
    }

    open spec fn from_spec(v: LowerError) -> SnailError {
        SnailError::Lower(v)
    }
}

} // verus!
