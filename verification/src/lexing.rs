//! Text-level pieces of the parser: the `$` variables and `{}` escapes of
//! subprocess commands, backslash escapes of string and regex literals, and
//! the parts of interpolated strings.
use vstd::prelude::*;
use vstd::string::StringSliceAdditionalSpecFns;
use crate::ast::{Expr, FStringPart, SourceSpan, SubprocessPart};
use crate::constants::{python_escape_char, python_escaped};
use crate::error::ParseError;
use crate::source_pos::{byte_len, char_len_utf8, char_width, span_at, span_from_offset};
use crate::text::{chars_of, push_char, push_str, string_from_chars};

verus! {

/// The awk or exception variable named at the start of `s` (the text after
/// a `$`), and how many characters its name takes.
pub open spec fn injected_prefix(s: Seq<char>) -> Option<(Seq<char>, nat)> {
    if s.len() >= 2 && s[0] == 'f' && s[1] == 'n' {
        Some(("fn"@, 2))
    } else if s.len() >= 1 && s[0] == 'l' {
        Some(("l"@, 1))
    } else if s.len() >= 1 && s[0] == 'f' {
        Some(("f"@, 1))
    } else if s.len() >= 1 && s[0] == 'n' {
        Some(("n"@, 1))
    } else if s.len() >= 1 && s[0] == 'p' {
        Some(("p"@, 1))
    } else if s.len() >= 1 && s[0] == 'm' {
        Some(("m"@, 1))
    } else if s.len() >= 1 && s[0] == 'e' {
        Some(("e"@, 1))
    } else {
        None
    }
}

fn injected_at(chars: &Vec<char>, i: usize) -> (r: Option<(&'static str, usize)>)
    requires
        i <= chars.len(),
    ensures
        match r {
            Some((name, n)) => injected_prefix(chars@.subrange(i as int, chars.len() as int)) == Some(
                (name@, n as nat),
            ),
            None => injected_prefix(chars@.subrange(i as int, chars.len() as int)) is None,
        },
{
    let ghost rest = chars@.subrange(i as int, chars.len() as int);
    if i < chars.len() && i + 1 < chars.len() && chars[i] == 'f' && chars[i + 1] == 'n' {
        return Some(("fn", 2));
    }
    if i < chars.len() {
        let c = chars[i];
        assert(rest[0] == c);
        if c == 'l' {
            return Some(("l", 1));
        } else if c == 'f' {
            return Some(("f", 1));
        } else if c == 'n' {
            return Some(("n", 1));
        } else if c == 'p' {
            return Some(("p", 1));
        } else if c == 'm' {
            return Some(("m", 1));
        } else if c == 'e' {
            return Some(("e", 1));
        }
    }
    None
}

/// The variable named at the start of `text`: `fn`, or one of `l`, `f`,
/// `n`, `p`, `m`, `e`, with the number of characters of its name.
pub fn match_injected_name(text: &str) -> (r: Option<(&'static str, usize)>)
    ensures
        match r {
            Some((name, n)) => injected_prefix(text@) == Some((name@, n as nat)),
            None => injected_prefix(text@) is None,
        },
{
    let chars = chars_of(text);
    assert(chars@.subrange(0, chars.len() as int) =~= text@);
    injected_at(&chars, 0)
}

pub open spec fn is_ascii_digit(c: char) -> bool {
    '0' <= c <= '9'
}

/// The index after the run of ASCII digits of `s` that starts at `j`.
pub open spec fn digits_end(s: Seq<char>, j: int) -> int
    decreases s.len() - j,
{
    if 0 <= j < s.len() && is_ascii_digit(s[j]) {
        digits_end(s, j + 1)
    } else {
        j
    }
}

/// A part of a subprocess command as the parser reads it: literal text, a
/// `$1` field, or a `$name` variable, with where it stands in the source.
pub enum CommandPiece {
    Text(Seq<char>),
    Field(Seq<char>, SourceSpan),
    Var(Seq<char>, SourceSpan),
    Other,
}

pub open spec fn command_piece(p: SubprocessPart) -> CommandPiece {
    match p {
        SubprocessPart::Text(t) => CommandPiece::Text(t@),
        SubprocessPart::Expr(e) => match *e {
            Expr::FieldIndex { index, span } => CommandPiece::Field(index@, span),
            Expr::Name { name, span } => CommandPiece::Var(name@, span),
            _ => CommandPiece::Other,
        },
    }
}

pub open spec fn command_pieces(v: Vec<SubprocessPart>) -> Seq<CommandPiece> {
    Seq::new(v.len() as nat, |i: int| command_piece(v[i]))
}

/// Pending literal text, as a part when there is any.
pub open spec fn flush(buf: Seq<char>) -> Seq<CommandPiece> {
    if buf.len() > 0 {
        seq![CommandPiece::Text(buf)]
    } else {
        Seq::empty()
    }
}

/// The parts of command text from character `i`, which stands at byte
/// `at` of `src`, with `buf` the literal text read so far: `{{` and `}}`
/// (and a lone brace) give a brace, `$$` a dollar, `$` and digits a field,
/// `$` and a variable name that variable, and any other `$` itself.
pub open spec fn command_parts(s: Seq<char>, i: int, at: int, buf: Seq<char>, src: Seq<char>) -> Seq<
    CommandPiece,
>
    decreases s.len() - i,
{
    if i < 0 || i >= s.len() {
        flush(buf)
    } else {
        let c = s[i];
        if c == '{' || c == '}' {
            if i + 1 < s.len() && s[i + 1] == c {
                command_parts(s, i + 2, at + 2, buf.push(c), src)
            } else {
                command_parts(s, i + 1, at + 1, buf.push(c), src)
            }
        } else if c == '$' {
            if i + 1 < s.len() && s[i + 1] == '$' {
                command_parts(s, i + 2, at + 2, buf.push('$'), src)
            } else if i + 1 < s.len() && is_ascii_digit(s[i + 1]) {
                let j = digits_end(s, i + 1);
                let end = at + (j - i);
                if j <= i || j > s.len() {
                    Seq::empty()
                } else {
                    flush(buf) + seq![
                        CommandPiece::Field(s.subrange(i + 1, j), span_at(src, at as usize, end as usize)),
                    ] + command_parts(s, j, end, Seq::empty(), src)
                }
            } else {
                match injected_prefix(s.subrange(i + 1, s.len() as int)) {
                    Some((name, n)) => flush(buf) + seq![
                        CommandPiece::Var(
                            "$"@ + name,
                            span_at(src, at as usize, (at + 1 + n) as usize),
                        ),
                    ] + command_parts(s, i + 1 + n, at + 1 + n, Seq::empty(), src),
                    None => command_parts(s, i + 1, at + 1, buf.push('$'), src),
                }
            }
        } else {
            command_parts(s, i + 1, at + char_width(c), buf.push(c), src)
        }
    }
}

proof fn lemma_byte_len_step(s: Seq<char>, i: int)
    requires
        0 <= i < s.len(),
    ensures
        byte_len(s.subrange(i, s.len() as int)) == char_width(s[i]) + byte_len(s.subrange(i + 1, s.len() as int)),
{
    assert(s.subrange(i, s.len() as int).drop_first() =~= s.subrange(i + 1, s.len() as int));
}

proof fn lemma_digits_end(s: Seq<char>, j: int)
    requires
        0 <= j <= s.len(),
    ensures
        j <= digits_end(s, j) <= s.len(),
        digits_end(s, j) < s.len() ==> !is_ascii_digit(s[digits_end(s, j)]),
    decreases s.len() - j,
{
    if j < s.len() && is_ascii_digit(s[j]) {
        lemma_digits_end(s, j + 1);
    }
}

fn push_piece_text(parts: &mut Vec<SubprocessPart>, buf: &mut String)
    ensures
        command_pieces(*final(parts)) == command_pieces(*old(parts)) + flush(old(buf)@),
        final(buf)@ == Seq::<char>::empty(),
{
    let ghost before = command_pieces(*parts);
    if !buf.as_str().is_empty() {
        let mut text = String::new();
        std::mem::swap(&mut text, buf);
        parts.push(SubprocessPart::Text(text));
        assert(command_pieces(*parts) =~= before + flush(old(buf)@));
    } else {
        assert(command_pieces(*parts) =~= before + flush(old(buf)@));
    }
}

/// Splits the literal text of a subprocess command into text and the `$`
/// fields and variables it names; `text` starts at byte `start_offset` of
/// `source`, and the spans of the fields and variables point there.
pub fn parse_subprocess_text_parts(text: &str, start_offset: usize, source: &str) -> (r: Result<
    Vec<SubprocessPart>,
    ParseError,
>)
    requires
        source@.len() < usize::MAX,
        start_offset + byte_len(text@) <= usize::MAX,
    ensures
        r matches Ok(parts) && command_pieces(parts) == command_parts(
            text@,
            0,
            start_offset as int,
            Seq::empty(),
            source@,
        ),
{
    let chars = chars_of(text);
    let ghost s = chars@;
    let ghost src = source@;
    proof {
        assert(s.subrange(0, s.len() as int) =~= s);
    }
    let mut parts: Vec<SubprocessPart> = Vec::new();
    let mut buffer = String::new();
    let mut at = start_offset;
    let mut i: usize = 0;
    while i < chars.len()
        invariant
            i <= chars.len(),
            s == chars@,
            s == text@,
            src == source@,
            source@.len() < usize::MAX,
            at + byte_len(s.subrange(i as int, s.len() as int)) <= usize::MAX,
            command_parts(s, 0, start_offset as int, Seq::empty(), src) == command_pieces(parts)
                + command_parts(s, i as int, at as int, buffer@, src),
        decreases chars.len() - i,
    {
        let ch = chars[i];
        proof {
            lemma_byte_len_step(s, i as int);
        }
        if ch == '{' || ch == '}' {
            push_char(&mut buffer, ch);
            if i + 1 < chars.len() && chars[i + 1] == ch {
                proof {
                    lemma_byte_len_step(s, i + 1);
                }
                i += 2;
                at += 2;
            } else {
                i += 1;
                at += 1;
            }
        } else if ch == '$' {
            if i + 1 < chars.len() && chars[i + 1] == '$' {
                proof {
                    lemma_byte_len_step(s, i + 1);
                }
                push_char(&mut buffer, '$');
                i += 2;
                at += 2;
            } else if i + 1 < chars.len() && '0' <= chars[i + 1] && chars[i + 1] <= '9' {
                let mut j = i + 1;
                let mut end = at + 1;
                proof {
                    lemma_digits_end(s, i + 1);
                }
                while j < chars.len() && '0' <= chars[j] && chars[j] <= '9'
                    invariant
                        i + 1 <= j <= chars.len(),
                        s == chars@,
                        end == at + (j - i),
                        digits_end(s, i + 1) == digits_end(s, j as int),
                        end + byte_len(s.subrange(j as int, s.len() as int)) <= usize::MAX,
                    decreases chars.len() - j,
                {
                    proof {
                        lemma_byte_len_step(s, j as int);
                    }
                    j += 1;
                    end += 1;
                }
                let digits = copy_chars(&chars, i + 1, j);
                push_piece_text(&mut parts, &mut buffer);
                let span = span_from_offset(at, end, source);
                let ghost before = command_pieces(parts);
                parts.push(SubprocessPart::Expr(Box::new(Expr::FieldIndex { index: digits, span })));
                assert(command_pieces(parts) =~= before + seq![
                    CommandPiece::Field(s.subrange(i + 1, j as int), span_at(src, at, end)),
                ]);
                i = j;
                at = end;
            } else {
                match injected_at(&chars, i + 1) {
                    Some((name, n)) => {
                        proof {
                            let rest = s.subrange(i + 1, s.len() as int);
                            assert(rest[0] == s[i + 1]);
                            lemma_byte_len_step(s, i + 1);
                            if n == 2 {
                                assert(rest[1] == s[i + 2]);
                                lemma_byte_len_step(s, i + 2);
                            }
                        }
                        push_piece_text(&mut parts, &mut buffer);
                        let end = at + 1 + n;
                        let span = span_from_offset(at, end, source);
                        let mut var_name = String::new();
                        push_char(&mut var_name, '$');
                        push_str(&mut var_name, name);
                        proof {
                            reveal_strlit("$");
                            assert("$"@ =~= seq!['$']);
                        }
                        let ghost before = command_pieces(parts);
                        parts.push(SubprocessPart::Expr(Box::new(Expr::Name { name: var_name, span })));
                        assert(command_pieces(parts) =~= before + seq![
                            CommandPiece::Var("$"@ + name@, span_at(src, at, end)),
                        ]);
                        i = i + 1 + n;
                        at = end;
                    },
                    None => {
                        push_char(&mut buffer, '$');
                        i += 1;
                        at += 1;
                    },
                }
            }
        } else {
            push_char(&mut buffer, ch);
            let w = char_len_utf8(ch);
            i += 1;
            at += w;
        }
    }
    push_piece_text(&mut parts, &mut buffer);
    assert(command_pieces(parts) =~= command_parts(s, 0, start_offset as int, Seq::empty(), src));
    Ok(parts)
}

fn copy_chars(chars: &Vec<char>, start: usize, end: usize) -> (r: String)
    requires
        start <= end <= chars.len(),
    ensures
        r@ == chars@.subrange(start as int, end as int),
{
    let mut out = String::new();
    let mut k = start;
    while k < end
        invariant
            start <= k <= end <= chars.len(),
            out@ == chars@.subrange(start as int, k as int),
        decreases end - k,
    {
        push_char(&mut out, chars[k]);
        assert(chars@.subrange(start as int, k + 1) =~= chars@.subrange(start as int, k as int).push(
            chars@[k as int],
        ));
        k += 1;
    }
    out
}

/// What an escape `\c` stands for: a newline, return, tab, quote,
/// apostrophe or backslash for `n`, `r`, `t`, `"`, `'` and `\`, a slash for
/// `/` where slashes are escaped, and the two characters as written for any
/// other `c`.
pub open spec fn escape_value(c: char, escape_slash: bool) -> Seq<char> {
    if c == 'n' {
        seq!['\n']
    } else if c == 'r' {
        seq!['\r']
    } else if c == 't' {
        seq!['\t']
    } else if c == '"' {
        seq!['"']
    } else if c == '\'' {
        seq!['\'']
    } else if c == '\\' {
        seq!['\\']
    } else if c == '/' && escape_slash {
        seq!['/']
    } else {
        seq!['\\', c]
    }
}

/// The text from index `i` with its backslash escapes replaced; a
/// backslash at the very end stays as it is.
pub open spec fn unescaped_from(s: Seq<char>, i: int, escape_slash: bool) -> Seq<char>
    decreases s.len() - i,
{
    if i < 0 || i >= s.len() {
        Seq::empty()
    } else if s[i] != '\\' {
        seq![s[i]] + unescaped_from(s, i + 1, escape_slash)
    } else if i + 1 >= s.len() {
        seq!['\\']
    } else {
        escape_value(s[i + 1], escape_slash) + unescaped_from(s, i + 2, escape_slash)
    }
}

/// The text of a literal with its backslash escapes replaced.
pub fn unescape_text(text: &str, escape_slash: bool) -> (r: String)
    ensures
        r@ == unescaped_from(text@, 0, escape_slash),
{
    let chars = chars_of(text);
    let ghost s = chars@;
    let mut out = String::new();
    let mut i: usize = 0;
    while i < chars.len()
        invariant
            i <= chars.len(),
            s == chars@,
            s == text@,
            unescaped_from(s, 0, escape_slash) == out@ + unescaped_from(s, i as int, escape_slash),
        decreases chars.len() - i,
    {
        let ch = chars[i];
        let ghost before = out@;
        if ch != '\\' {
            push_char(&mut out, ch);
            i += 1;
            assert(out@ =~= before + seq![ch]);
            assert(unescaped_from(s, 0, escape_slash) =~= out@ + unescaped_from(s, i as int, escape_slash));
        } else if i + 1 >= chars.len() {
            push_char(&mut out, '\\');
            i += 1;
            assert(out@ =~= before + seq!['\\']);
            assert(unescaped_from(s, 0, escape_slash) =~= out@ + unescaped_from(s, i as int, escape_slash));
        } else {
            let next = chars[i + 1];
            if next == 'n' {
                push_char(&mut out, '\n');
            } else if next == 'r' {
                push_char(&mut out, '\r');
            } else if next == 't' {
                push_char(&mut out, '\t');
            } else if next == '"' {
                push_char(&mut out, '"');
            } else if next == '\'' {
                push_char(&mut out, '\'');
            } else if next == '\\' {
                push_char(&mut out, '\\');
            } else if next == '/' && escape_slash {
                push_char(&mut out, '/');
            } else {
                push_char(&mut out, '\\');
                push_char(&mut out, next);
            }
            assert(out@ =~= before + escape_value(next, escape_slash));
            i += 2;
            assert(unescaped_from(s, 0, escape_slash) =~= out@ + unescaped_from(s, i as int, escape_slash));
        }
    }
    assert(out@ =~= out@ + unescaped_from(s, i as int, escape_slash));
    out
}

/// The text of a string literal with its escapes replaced.
pub fn unescape_string_text(text: &str) -> (r: String)
    ensures
        r@ == unescaped_from(text@, 0, false),
{
    unescape_text(text, false)
}

/// The text of a regex literal with its escapes replaced, `\/` included.
pub fn unescape_regex_text(text: &str) -> (r: String)
    ensures
        r@ == unescaped_from(text@, 0, true),
{
    unescape_text(text, true)
}

/// The text from index `i` with each `\/` written as `/`.
pub open spec fn unescaped_slashes(s: Seq<char>, i: int) -> Seq<char>
    decreases s.len() - i,
{
    if i < 0 || i >= s.len() {
        Seq::empty()
    } else if s[i] == '\\' && i + 1 < s.len() && s[i + 1] == '/' {
        seq!['/'] + unescaped_slashes(s, i + 2)
    } else {
        seq![s[i]] + unescaped_slashes(s, i + 1)
    }
}

/// The text of a regex with each `\/` written as `/`.
pub fn normalize_regex_text(text: &str) -> (r: String)
    ensures
        r@ == unescaped_slashes(text@, 0),
{
    let chars = chars_of(text);
    let ghost s = chars@;
    let mut out = String::new();
    let mut i: usize = 0;
    while i < chars.len()
        invariant
            i <= chars.len(),
            s == chars@,
            s == text@,
            unescaped_slashes(s, 0) == out@ + unescaped_slashes(s, i as int),
        decreases chars.len() - i,
    {
        let ghost before = out@;
        if chars[i] == '\\' && i + 1 < chars.len() && chars[i + 1] == '/' {
            push_char(&mut out, '/');
            i += 2;
        } else {
            push_char(&mut out, chars[i]);
            i += 1;
        }
        assert(unescaped_slashes(s, 0) =~= out@ + unescaped_slashes(s, i as int));
    }
    assert(out@ =~= out@ + unescaped_slashes(s, i as int));
    out
}

/// The literal text of the first `n` parts of an interpolated string, the
/// expressions left out.
pub open spec fn parts_text(s: Seq<FStringPart>, n: int) -> Seq<char>
    decreases n,
{
    if n <= 0 || n > s.len() {
        Seq::empty()
    } else {
        parts_text(s, n - 1) + match s[n - 1] {
            FStringPart::Text(t) => t@,
            FStringPart::Expr(_) => Seq::empty(),
        }
    }
}

/// The literal text of an interpolated string, its expressions left out.
pub fn join_fstring_text(parts: Vec<FStringPart>) -> (r: String)
    ensures
        r@ == parts_text(parts@, parts.len() as int),
{
    let mut text = String::new();
    let mut i: usize = 0;
    while i < parts.len()
        invariant
            i <= parts.len(),
            text@ == parts_text(parts@, i as int),
        decreases parts.len() - i,
    {
        match &parts[i] {
            FStringPart::Text(value) => push_str(&mut text, value.as_str()),
            FStringPart::Expr(_) => {},
        }
        i += 1;
    }
    text
}

/// Whether `b` is `a` with the text of its literal parts unescaped (with or
/// without `\/`), part by part, the expressions kept.
pub open spec fn unescaped_parts(a: Seq<FStringPart>, b: Seq<FStringPart>, escape_slash: bool) -> bool {
    &&& a.len() == b.len()
    &&& forall|i: int|
        0 <= i < a.len() ==> match (#[trigger] a[i], b[i]) {
            (FStringPart::Text(x), FStringPart::Text(y)) => y@ == unescaped_from(x@, 0, escape_slash),
            (FStringPart::Expr(x), FStringPart::Expr(y)) => x == y,
            _ => false,
        }
}

fn unescape_parts(parts: Vec<FStringPart>, escape_slash: bool) -> (r: Vec<FStringPart>)
    ensures
        unescaped_parts(parts@, r@, escape_slash),
{
    let ghost original = parts@;
    let mut normalized: Vec<FStringPart> = Vec::new();
    let mut rest = parts;
    while rest.len() > 0
        invariant
            normalized.len() + rest.len() == original.len(),
            rest@ == original.subrange(normalized.len() as int, original.len() as int),
            forall|i: int|
                0 <= i < normalized.len() ==> match (#[trigger] original[i], normalized@[i]) {
                    (FStringPart::Text(x), FStringPart::Text(y)) => y@ == unescaped_from(x@, 0, escape_slash),
                    (FStringPart::Expr(x), FStringPart::Expr(y)) => x == y,
                    _ => false,
                },
        decreases rest.len(),
    {
        let k = normalized.len();
        let part = rest.remove(0);
        assert(part == original[k as int]);
        assert(rest@ =~= original.subrange(k + 1, original.len() as int));
        match part {
            FStringPart::Text(text) => normalized.push(FStringPart::Text(unescape_text(text.as_str(), escape_slash))),
            FStringPart::Expr(expr) => normalized.push(FStringPart::Expr(expr)),
        }
    }
    normalized
}

/// The parts of a string literal with the escapes of their text replaced,
/// unless the literal is raw.
pub fn normalize_string_parts(parts: Vec<FStringPart>, raw: bool) -> (r: Result<Vec<FStringPart>, ParseError>)
    ensures
        r matches Ok(out) && (if raw {
            out@ == parts@
        } else {
            unescaped_parts(parts@, out@, false)
        }),
{
    if raw {
        return Ok(parts);
    }
    Ok(unescape_parts(parts, false))
}

/// The parts of a regex literal with the escapes of their text replaced,
/// `\/` included.
pub fn normalize_regex_parts(parts: Vec<FStringPart>) -> (r: Result<Vec<FStringPart>, ParseError>)
    ensures
        r matches Ok(out) && unescaped_parts(parts@, out@, true),
{
    Ok(unescape_parts(parts, true))
}

/// Whether the delimiter, `dl` copies of the quote `q`, stands at byte `i`.
pub open spec fn closes_at(b: Seq<u8>, i: int, q: u8, dl: int) -> bool {
    &&& 0 <= i
    &&& i + dl <= b.len()
    &&& b[i] == q
    &&& (dl == 3 ==> b[i + 1] == q && b[i + 2] == q)
}

/// Where a string literal whose body starts at byte `i` ends: just after
/// its closing delimiter; a backslash skips the next byte unless the
/// literal is raw.
pub open spec fn close_of(b: Seq<u8>, i: int, q: u8, dl: int, raw: bool) -> Option<int>
    decreases b.len() - i,
{
    if i < 0 || i >= b.len() {
        None
    } else if closes_at(b, i, q, dl) {
        Some(i + dl)
    } else if !raw && b[i] == 92u8 {
        close_of(
            b,
            if i + 2 <= b.len() {
                i + 2
            } else {
                b.len() as int
            },
            q,
            dl,
            raw,
        )
    } else {
        close_of(b, i + 1, q, dl, raw)
    }
}

/// Where the string literal that starts at byte `start` ends: an optional
/// `r` prefix, then one quote or three equal quotes.
pub open spec fn string_end(b: Seq<u8>, start: int) -> Option<int> {
    let raw = 0 <= start < b.len() && b[start] == 114u8;
    let i = if raw {
        start + 1
    } else {
        start
    };
    if i < 0 || i >= b.len() {
        None
    } else {
        let q = b[i];
        let dl = if i + 3 <= b.len() && b[i + 1] == q && b[i + 2] == q {
            3int
        } else {
            1int
        };
        close_of(b, i + dl, q, dl, raw)
    }
}

proof fn lemma_close_of(b: Seq<u8>, i: int, q: u8, dl: int, raw: bool)
    requires
        dl >= 1,
    ensures
        close_of(b, i, q, dl, raw) matches Some(e) ==> i < e <= b.len(),
    decreases b.len() - i,
{
    if 0 <= i < b.len() && !closes_at(b, i, q, dl) {
        if !raw && b[i] == 92u8 {
            lemma_close_of(
                b,
                if i + 2 <= b.len() {
                    i + 2
                } else {
                    b.len() as int
                },
                q,
                dl,
                raw,
            );
        } else {
            lemma_close_of(b, i + 1, q, dl, raw);
        }
    }
}

proof fn lemma_string_end(b: Seq<u8>, start: int)
    requires
        0 <= start,
    ensures
        string_end(b, start) matches Some(e) ==> start < e <= b.len(),
{
    let raw = 0 <= start < b.len() && b[start] == 114u8;
    let i = if raw {
        start + 1
    } else {
        start
    };
    if 0 <= i < b.len() {
        let q = b[i];
        let dl = if i + 3 <= b.len() && b[i + 1] == q && b[i + 2] == q {
            3int
        } else {
            1int
        };
        lemma_close_of(b, i + dl, q, dl, raw);
    }
}

/// The end of the string literal that starts at byte `start`: the index just
/// after its closing delimiter, if it has one.
pub fn skip_string_literal(bytes: &[u8], start: usize) -> (r: Option<usize>)
    ensures
        match r {
            Some(e) => string_end(bytes@, start as int) == Some(e as int),
            None => string_end(bytes@, start as int) is None,
        },
{
    let ghost b = bytes@;
    let mut i = start;
    let raw = if i < bytes.len() && bytes[i] == 114u8 {
        i += 1;
        true
    } else {
        false
    };
    if i >= bytes.len() {
        return None;
    }
    let quote = bytes[i];
    let delim_len: usize = if bytes.len() - i >= 3 && bytes[i + 1] == quote && bytes[i + 2] == quote {
        3
    } else {
        1
    };
    if bytes.len() - i <= delim_len {
        return None;
    }
    i += delim_len;
    while i < bytes.len()
        invariant
            b == bytes@,
            delim_len == 1 || delim_len == 3,
            i <= bytes.len(),
            string_end(b, start as int) == close_of(b, i as int, quote, delim_len as int, raw),
        decreases bytes.len() - i,
    {
        let closes = bytes.len() - i >= delim_len && bytes[i] == quote && (delim_len == 1 || (
        bytes[i + 1] == quote && bytes[i + 2] == quote));
        assert(closes == closes_at(b, i as int, quote, delim_len as int));
        if closes {
            return Some(i + delim_len);
        }
        if !raw && bytes[i] == 92u8 {
            i = if bytes.len() - i >= 2 {
                i + 2
            } else {
                bytes.len()
            };
            continue;
        }
        i += 1;
    }
    None
}

/// Where the expression of an f-string hole that starts at byte `i` ends:
/// at the first `}` outside brackets, braces and string literals.
pub open spec fn hole_end(b: Seq<u8>, i: int, paren: nat, bracket: nat, brace: nat) -> Option<int>
    decreases b.len() - i,
{
    if i < 0 || i >= b.len() {
        None
    } else {
        let c = b[i];
        if (c == 114u8 && i + 1 < b.len() && (b[i + 1] == 39u8 || b[i + 1] == 34u8)) || c == 39u8
            || c == 34u8 {
            match string_end(b, i) {
                Some(e) => if e <= i || e > b.len() {
                    None
                } else {
                    hole_end(b, e, paren, bracket, brace)
                },
                None => None,
            }
        } else if c == 40u8 {
            hole_end(b, i + 1, paren + 1, bracket, brace)
        } else if c == 41u8 {
            hole_end(b, i + 1, (if paren > 0 { paren - 1 } else { 0 }) as nat, bracket, brace)
        } else if c == 91u8 {
            hole_end(b, i + 1, paren, bracket + 1, brace)
        } else if c == 93u8 {
            hole_end(b, i + 1, paren, (if bracket > 0 { bracket - 1 } else { 0 }) as nat, brace)
        } else if c == 123u8 {
            hole_end(b, i + 1, paren, bracket, brace + 1)
        } else if c == 125u8 {
            if paren == 0 && bracket == 0 && brace == 0 {
                Some(i)
            } else {
                hole_end(b, i + 1, paren, bracket, (if brace > 0 { brace - 1 } else { 0 }) as nat)
            }
        } else {
            hole_end(b, i + 1, paren, bracket, brace)
        }
    }
}

/// The byte index of the `}` that closes the f-string expression starting
/// at byte `start` of `content`, if there is one.
pub fn find_fstring_expr_end(content: &str, start: usize) -> (r: Option<usize>)
    ensures
        match r {
            Some(e) => hole_end(content.spec_bytes(), start as int, 0, 0, 0) == Some(e as int),
            None => hole_end(content.spec_bytes(), start as int, 0, 0, 0) is None,
        },
{
    let bytes = content.as_bytes();
    let ghost b = bytes@;
    let mut i = start;
    let mut paren: usize = 0;
    let mut bracket: usize = 0;
    let mut brace: usize = 0;
    while i < bytes.len()
        invariant
            b == bytes@,
            b == content.spec_bytes(),
            start <= i,
            paren + bracket + brace <= i - start,
            hole_end(b, start as int, 0, 0, 0) == hole_end(b, i as int, paren as nat, bracket as nat, brace as nat),
        decreases bytes.len() - i,
    {
        let c = bytes[i];
        if (c == 114u8 && i + 1 < bytes.len() && (bytes[i + 1] == 39u8 || bytes[i + 1] == 34u8)) || c
            == 39u8 || c == 34u8 {
            proof {
                lemma_string_end(b, i as int);
            }
            match skip_string_literal(bytes, i) {
                Some(end) => {
                    i = end;
                },
                None => {
                    return None;
                },
            }
        } else if c == 40u8 {
            paren += 1;
            i += 1;
        } else if c == 41u8 {
            paren = paren.saturating_sub(1);
            i += 1;
        } else if c == 91u8 {
            bracket += 1;
            i += 1;
        } else if c == 93u8 {
            bracket = bracket.saturating_sub(1);
            i += 1;
        } else if c == 123u8 {
            brace += 1;
            i += 1;
        } else if c == 125u8 {
            if paren == 0 && bracket == 0 && brace == 0 {
                return Some(i);
            }
            brace = brace.saturating_sub(1);
            i += 1;
        } else {
            i += 1;
        }
    }
    None
}

proof fn lemma_escaped_front(s: Seq<char>)
    requires
        s.len() > 0,
    ensures
        python_escaped(s) == python_escape_char(s[0]) + python_escaped(s.drop_first()),
    decreases s.len(),
{
    if s.len() == 1 {
        assert(s.drop_last() =~= Seq::<char>::empty());
        assert(s.drop_first() =~= Seq::<char>::empty());
        assert(python_escaped(s) =~= python_escape_char(s[0]) + python_escaped(s.drop_first()));
    } else {
        let init = s.drop_last();
        lemma_escaped_front(init);
        assert(init.drop_first() =~= s.drop_first().drop_last());
        assert(s.drop_first().last() == s.last());
        assert(python_escaped(s) =~= python_escape_char(s[0]) + python_escaped(s.drop_first()));
    }
}

proof fn lemma_unescape_after(p: Seq<char>, y: Seq<char>, k: int, escape_slash: bool)
    requires
        0 <= k,
    ensures
        unescaped_from(p + y, p.len() + k, escape_slash) == unescaped_from(y, k, escape_slash),
    decreases y.len() - k,
{
    let s = p + y;
    let i = p.len() + k;
    if k < y.len() {
        assert(s[i] == y[k]);
        if y[k] != '\\' {
            lemma_unescape_after(p, y, k + 1, escape_slash);
        } else if k + 1 < y.len() {
            assert(s[i + 1] == y[k + 1]);
            lemma_unescape_after(p, y, k + 2, escape_slash);
        }
    }
}

/// Text escaped for a double-quoted Python string literal reads back as the
/// same text when the escapes of a string literal are replaced.
pub proof fn lemma_escape_round_trip(s: Seq<char>)
    ensures
        unescaped_from(python_escaped(s), 0, false) == s,
    decreases s.len(),
{
    if s.len() == 0 {
        assert(python_escaped(s) =~= Seq::<char>::empty());
    } else {
        let c = s[0];
        let rest = s.drop_first();
        lemma_escaped_front(s);
        lemma_escape_round_trip(rest);
        let head = python_escape_char(c);
        let e = head + python_escaped(rest);
        lemma_unescape_after(head, python_escaped(rest), 0, false);
        assert(e[0] == head[0]);
        if head.len() == 2 {
            assert(e[1] == head[1]);
        }
        assert(unescaped_from(e, 0, false) =~= seq![c] + rest);
        assert(s =~= seq![c] + rest);
    }
}

} // verus!
