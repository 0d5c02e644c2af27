//! Positions in source text. Offsets count UTF-8 bytes; lines and columns
//! count from 1, a column being one character.
use vstd::prelude::*;
use vstd::utf8::{encode_scalar, encode_utf8, is_scalar};
use crate::ast::{Expr, SourcePos, SourceSpan, expr_span_of};
use crate::error::ParseError;
use crate::format::{lemma_next_newline, next_newline, strip_cr};
use crate::text::{chars_of, owned, push_char};

verus! {

/// The number of bytes of the UTF-8 encoding of `c`.
pub open spec fn char_width(c: char) -> nat {
    if (c as u32) <= 0x7F {
        1
    } else if (c as u32) <= 0x7FF {
        2
    } else if (c as u32) <= 0xFFFF {
        3
    } else {
        4
    }
}

/// The number of UTF-8 bytes of the characters of `s`.
pub open spec fn byte_len(s: Seq<char>) -> nat
    decreases s.len(),
{
    if s.len() == 0 {
        0
    } else {
        char_width(s[0]) + byte_len(s.drop_first())
    }
}

/// The width of each character is the length of its UTF-8 encoding, so the
/// byte length of a text is that of its encoding.
pub proof fn lemma_byte_len(s: Seq<char>)
    ensures
        byte_len(s) == encode_utf8(s).len(),
    decreases s.len(),
{
    if s.len() > 0 {
        let v = s[0] as u32;
        vstd::utf8::char_is_scalar(s[0]);
        assert(is_scalar(v));
        assert(encode_scalar(v).len() == char_width(s[0]));
        lemma_byte_len(s.drop_first());
    }
}

/// `char::len_utf8`, computed from the code point.
pub fn char_len_utf8(c: char) -> (r: usize)
    ensures
        r == char_width(c),
        1 <= r <= 4,
{
    let v = c as u32;
    if v <= 0x7F {
        1
    } else if v <= 0x7FF {
        2
    } else if v <= 0xFFFF {
        3
    } else {
        4
    }
}

/// The line and column reached from character `i` of `s`, which starts at
/// byte `pos`, at line `line` and column `col`: every character that starts
/// before byte `offset` moves the column on, and a newline moves to the
/// start of the next line.
pub open spec fn line_col_from(s: Seq<char>, i: int, pos: int, offset: int, line: nat, col: nat) -> (
    nat,
    nat,
)
    decreases s.len() - i,
{
    if i < 0 || i >= s.len() || pos >= offset {
        (line, col)
    } else if s[i] == '\n' {
        line_col_from(s, i + 1, pos + char_width(s[i]), offset, line + 1, 1)
    } else {
        line_col_from(s, i + 1, pos + char_width(s[i]), offset, line, col + 1)
    }
}

/// The line and column of byte `offset` of `s`.
pub open spec fn line_col(s: Seq<char>, offset: int) -> (nat, nat) {
    line_col_from(s, 0, 0, offset, 1, 1)
}

/// The position of byte `offset` of `s`.
pub open spec fn pos_at(s: Seq<char>, offset: usize) -> SourcePos {
    SourcePos {
        offset,
        line: line_col(s, offset as int).0 as usize,
        column: line_col(s, offset as int).1 as usize,
    }
}

/// The span from byte `start` to byte `end` of `s`.
pub open spec fn span_at(s: Seq<char>, start: usize, end: usize) -> SourceSpan {
    SourceSpan { start: pos_at(s, start), end: pos_at(s, end) }
}

/// The line and column of a byte offset of `source`.
pub fn line_col_from_offset(source: &str, offset: usize) -> (r: (usize, usize))
    requires
        source@.len() < usize::MAX,
    ensures
        r.0 as nat == line_col(source@, offset as int).0,
        r.1 as nat == line_col(source@, offset as int).1,
{
    let chars = chars_of(source);
    let ghost s = chars@;
    let mut line: usize = 1;
    let mut col: usize = 1;
    let mut pos: usize = 0;
    let ghost mut true_pos: int = 0;
    let mut i: usize = 0;
    while i < chars.len() && pos < offset
        invariant
            i <= chars.len(),
            s == chars@,
            s == source@,
            chars.len() < usize::MAX,
            1 <= line <= i + 1,
            1 <= col <= i + 1,
            true_pos >= 0,
            pos as int == (if true_pos <= usize::MAX {
                true_pos
            } else {
                usize::MAX as int
            }),
            line_col(s, offset as int) == line_col_from(s, i as int, true_pos, offset as int, line as nat, col as nat),
        decreases chars.len() - i,
    {
        let c = chars[i];
        let w = char_len_utf8(c);
        if c == '\n' {
            line = line + 1;
            col = 1;
        } else {
            col = col + 1;
        }
        pos = pos.saturating_add(w);
        proof {
            true_pos = true_pos + w;
        }
        i += 1;
    }
    (line, col)
}

/// The span from byte `start` to byte `end` of `source`.
pub fn span_from_offset(start: usize, end: usize, source: &str) -> (r: SourceSpan)
    requires
        source@.len() < usize::MAX,
    ensures
        r == span_at(source@, start, end),
{
    let (start_line, start_col) = line_col_from_offset(source, start);
    let (end_line, end_col) = line_col_from_offset(source, end);
    SourceSpan {
        start: SourcePos { offset: start, line: start_line, column: start_col },
        end: SourcePos { offset: end, line: end_line, column: end_col },
    }
}

/// The span of the whole of `source`.
pub fn full_span(source: &str) -> (r: SourceSpan)
    requires
        source@.len() < usize::MAX,
    ensures
        r.start == (SourcePos { offset: 0, line: 1, column: 1 }),
        r.end == pos_at(source@, source.len()),
{
    let end_offset = source.len();
    let (end_line, end_col) = line_col_from_offset(source, end_offset);
    SourceSpan {
        start: SourcePos { offset: 0, line: 1, column: 1 },
        end: SourcePos { offset: end_offset, line: end_line, column: end_col },
    }
}

/// A span moved `offset` bytes further into `source`, its lines and
/// columns found anew.
pub fn shift_span(span: &SourceSpan, offset: usize, source: &str) -> (r: SourceSpan)
    requires
        source@.len() < usize::MAX,
        span.start.offset + offset <= usize::MAX,
        span.end.offset + offset <= usize::MAX,
    ensures
        r == span_at(source@, (span.start.offset + offset) as usize, (span.end.offset + offset) as usize),
{
    span_from_offset(span.start.offset + offset, span.end.offset + offset, source)
}

/// The span of an expression.
pub fn expr_span(expr: &Expr) -> (r: SourceSpan)
    ensures
        r == expr_span_of(*expr),
{
    match expr {
        Expr::Name { span, .. } => *span,
        Expr::Number { span, .. } => *span,
        Expr::String { span, .. } => *span,
        Expr::FString { span, .. } => *span,
        Expr::Bool { span, .. } => *span,
        Expr::NoneLiteral { span } => *span,
        Expr::Unary { span, .. } => *span,
        Expr::Binary { span, .. } => *span,
        Expr::Compare { span, .. } => *span,
        Expr::IfExpr { span, .. } => *span,
        Expr::TryExpr { span, .. } => *span,
        Expr::Compound { span, .. } => *span,
        Expr::Regex { span, .. } => *span,
        Expr::RegexMatch { span, .. } => *span,
        Expr::Subprocess { span, .. } => *span,
        Expr::StructuredAccessor { span, .. } => *span,
        Expr::Call { span, .. } => *span,
        Expr::Attribute { span, .. } => *span,
        Expr::Index { span, .. } => *span,
        Expr::Paren { span, .. } => *span,
        Expr::FieldIndex { span, .. } => *span,
        Expr::List { span, .. } => *span,
        Expr::Tuple { span, .. } => *span,
        Expr::Dict { span, .. } => *span,
        Expr::SetLiteral { span, .. } => *span,
        Expr::ListComp { span, .. } => *span,
        Expr::DictComp { span, .. } => *span,
        Expr::Slice { span, .. } => *span,
    }
}

/// The `n`-th line (from 0) of `s` from index `i` on, as `str::lines`
/// splits: at `\n` or `\r\n`, the final line needing no ending.
pub open spec fn nth_line(s: Seq<char>, i: int, n: nat) -> Option<Seq<char>>
    decreases s.len() - i,
{
    if i < 0 || i >= s.len() {
        None
    } else {
        let k = next_newline(s, i);
        if k >= s.len() {
            if n == 0 {
                Some(s.subrange(i, s.len() as int))
            } else {
                None
            }
        } else if k < i {
            None
        } else if n == 0 {
            Some(strip_cr(s.subrange(i, k)))
        } else {
            nth_line(s, k + 1, (n - 1) as nat)
        }
    }
}

/// The text of line `line` (from 1) of `s`, if it has that line.
pub open spec fn line_text_spec(s: Seq<char>, line: usize) -> Option<Seq<char>> {
    if line == 0 {
        None
    } else {
        nth_line(s, 0, (line - 1) as nat)
    }
}

fn copy_range(chars: &Vec<char>, start: usize, end: usize) -> (r: String)
    requires
        start <= end <= chars.len(),
    ensures
        r@ == chars@.subrange(start as int, end as int),
{
    let mut out = String::new();
    let mut k = start;
    while k < end
        invariant
            start <= k <= end <= chars.len(),
            out@ == chars@.subrange(start as int, k as int),
        decreases end - k,
    {
        push_char(&mut out, chars[k]);
        assert(chars@.subrange(start as int, k + 1) =~= chars@.subrange(start as int, k as int).push(
            chars@[k as int],
        ));
        k += 1;
    }
    out
}

/// The text of line `line` (counting from 1) of `source`.
pub fn line_text(source: &str, line: usize) -> (r: Option<String>)
    ensures
        match r {
            Some(t) => line_text_spec(source@, line) == Some(t@),
            None => line_text_spec(source@, line) is None,
        },
{
    if line == 0 {
        return None;
    }
    let chars = chars_of(source);
    let ghost s = chars@;
    let mut remaining: usize = line - 1;
    let mut i: usize = 0;
    while i < chars.len()
        invariant
            i <= chars.len(),
            s == chars@,
            s == source@,
            line_text_spec(s, line) == nth_line(s, i as int, remaining as nat),
        decreases chars.len() - i,
    {
        let mut k = i;
        while k < chars.len() && chars[k] != '\n'
            invariant
                i <= k <= chars.len(),
                s == chars@,
                next_newline(s, i as int) == next_newline(s, k as int),
            decreases chars.len() - k,
        {
            k += 1;
        }
        proof {
            lemma_next_newline(s, i as int);
        }
        if k == chars.len() {
            if remaining == 0 {
                return Some(copy_range(&chars, i, k));
            }
            return None;
        }
        if remaining == 0 {
            let end = if k > i && chars[k - 1] == '\r' {
                k - 1
            } else {
                k
            };
            proof {
                let sub = s.subrange(i as int, k as int);
                if sub.len() > 0 {
                    assert(sub.last() == s[k - 1]);
                }
                assert(strip_cr(sub) =~= s.subrange(i as int, end as int));
            }
            return Some(copy_range(&chars, i, end));
        }
        remaining = remaining - 1;
        i = k + 1;
    }
    None
}

/// A parse error at `span`, with the text of the line where the span starts.
pub fn error_with_span(message: &str, span: SourceSpan, source: &str) -> (r: ParseError)
    ensures
        r.message@ == message@,
        r.span == Some(span),
        match r.line_text {
            Some(t) => line_text_spec(source@, span.start.line) == Some(t@),
            None => line_text_spec(source@, span.start.line) is None,
        },
{
    let mut err = ParseError::new(message);
    err.line_text = line_text(source, span.start.line);
    err.span = Some(span);
    err
}

} // verus!
