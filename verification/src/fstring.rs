//! The body of an interpolated string, split into literal text and the
//! `{...}` holes whose expression text the expression parser reads.
use vstd::prelude::*;
use vstd::string::StringSliceAdditionalSpecFns;
use vstd::utf8::{
    decode_utf8, encode_utf8_decode_utf8, encode_utf8_valid_utf8, is_char_boundary,
    is_char_boundary_iff_not_is_continuation_byte, is_char_boundary_start_end_of_seq,
    is_continuation_byte, valid_utf8, valid_utf8_split,
};
use crate::error::ParseError;
use crate::lexing::{find_fstring_expr_end, hole_end, string_end};
use crate::source_pos::{error_with_span, line_text_spec, span_at, span_from_offset};
use crate::text::{chars_of, owned, push_char};

verus! {

/// In UTF-8 text, an ASCII byte is a character of its own: a character
/// starts at it and another just after it.
proof fn lemma_ascii_boundaries(b: Seq<u8>, k: int)
    requires
        valid_utf8(b),
        0 <= k < b.len(),
        b[k] < 128,
    ensures
        is_char_boundary(b, k),
        is_char_boundary(b, k + 1),
{
    is_char_boundary_iff_not_is_continuation_byte(b, k);
    is_char_boundary_start_end_of_seq(b);
    if k + 1 < b.len() {
        valid_utf8_split(b, k);
        let s = b.subrange(k, b.len() as int);
        assert(s[0] == b[k]);
        let t = s.subrange(1, s.len() as int);
        assert(t =~= b.subrange(k + 1, b.len() as int));
        assert(valid_utf8(t));
        assert(t[0] == b[k + 1]);
        assert(!is_continuation_byte(b[k + 1]));
        is_char_boundary_iff_not_is_continuation_byte(b, k + 1);
    }
}

/// The text of `s` between bytes `start` and `end`, both at character
/// boundaries.
fn byte_slice(s: &str, start: usize, end: usize) -> (r: &str)
    requires
        start <= end <= s.spec_bytes().len(),
        is_char_boundary(s.spec_bytes(), start as int),
        is_char_boundary(s.spec_bytes(), end as int),
    ensures
        r.spec_bytes() == s.spec_bytes().subrange(start as int, end as int),
        r@ == decode_utf8(s.spec_bytes().subrange(start as int, end as int)),
{
    let ghost b = s.spec_bytes();
    proof {
        encode_utf8_valid_utf8(s@);
        valid_utf8_split(b, start as int);
    }
    let (_, tail) = s.split_at(start);
    let ghost t = tail.spec_bytes();
    proof {
        assert(t =~= b.subrange(start as int, b.len() as int));
        is_char_boundary_start_end_of_seq(t);
        if end < b.len() {
            is_char_boundary_iff_not_is_continuation_byte(b, end as int);
            assert(t[end - start] == b[end as int]);
            is_char_boundary_iff_not_is_continuation_byte(t, end - start);
        }
    }
    let (mid, _) = tail.split_at(end - start);
    proof {
        assert(mid.spec_bytes() =~= b.subrange(start as int, end as int));
        encode_utf8_decode_utf8(mid@);
    }
    mid
}

/// The text of an f-string body with every doubled brace, `{{` or `}}`,
/// taken as one, reading from the left.
pub open spec fn brace_collapsed(s: Seq<char>) -> Seq<char>
    decreases s.len(),
{
    if s.len() == 0 {
        s
    } else if s.len() >= 2 && (s[0] == '{' || s[0] == '}') && s[1] == s[0] {
        seq![s[0]] + brace_collapsed(s.subrange(2, s.len() as int))
    } else {
        seq![s[0]] + brace_collapsed(s.drop_first())
    }
}

/// `text` with its doubled braces collapsed.
fn collapse_braces(text: &str) -> (r: String)
    ensures
        r@ == brace_collapsed(text@),
{
    let v = chars_of(text);
    let ghost s = v@;
    let mut out = String::new();
    let mut i: usize = 0;
    assert(s.subrange(0, s.len() as int) =~= s);
    assert(out@ + brace_collapsed(s) =~= brace_collapsed(s));
    while i < v.len()
        invariant
            s == v@,
            i <= v.len(),
            brace_collapsed(s) == out@ + brace_collapsed(s.subrange(i as int, s.len() as int)),
        decreases v.len() - i,
    {
        let c = v[i];
        let ghost rest = s.subrange(i as int, s.len() as int);
        assert(rest[0] == c);
        if (c == '{' || c == '}') && i + 1 < v.len() && v[i + 1] == c {
            assert(rest[1] == v@[i + 1]);
            assert(rest.subrange(2, rest.len() as int) =~= s.subrange(i + 2, s.len() as int));
            push_char(&mut out, c);
            i += 2;
        } else {
            assert(rest.drop_first() =~= s.subrange(i + 1, s.len() as int));
            push_char(&mut out, c);
            i += 1;
        }
    }
    assert(s.subrange(i as int, s.len() as int) =~= Seq::<char>::empty());
    out
}

/// Whether `c` is white space as Unicode defines it, as `char::is_whitespace`
/// and `str::trim` take it.
pub open spec fn is_white_space(c: char) -> bool {
    ||| ('\t' <= c && c <= '\r')
    ||| c == ' '
    ||| c == '\u{85}'
    ||| c == '\u{a0}'
    ||| c == '\u{1680}'
    ||| ('\u{2000}' <= c && c <= '\u{200a}')
    ||| c == '\u{2028}'
    ||| c == '\u{2029}'
    ||| c == '\u{202f}'
    ||| c == '\u{205f}'
    ||| c == '\u{3000}'
}

/// Whether `s` holds nothing but white space, so that trimming leaves it
/// empty.
pub open spec fn is_blank(s: Seq<char>) -> bool {
    forall|k: int| 0 <= k < s.len() ==> is_white_space(#[trigger] s[k])
}

/// Whether `text` is empty once trimmed.
fn trims_to_empty(text: &str) -> (r: bool)
    ensures
        r == is_blank(text@),
{
    let v = chars_of(text);
    let mut i: usize = 0;
    while i < v.len()
        invariant
            v@ == text@,
            i <= v.len(),
            forall|k: int| 0 <= k < i ==> is_white_space(#[trigger] v@[k]),
        decreases v.len() - i,
    {
        let c = v[i];
        let white = ('\t' <= c && c <= '\r') || c == ' ' || c == '\u{85}' || c == '\u{a0}' || c
            == '\u{1680}' || ('\u{2000}' <= c && c <= '\u{200a}') || c == '\u{2028}' || c
            == '\u{2029}' || c == '\u{202f}' || c == '\u{205f}' || c == '\u{3000}';
        if !white {
            return false;
        }
        i += 1;
    }
    true
}

/// A stretch of an f-string body, by byte range: literal text, or the
/// expression text of a `{...}` hole, its braces left out.
pub enum FStringSegment {
    Text(int, int),
    Hole(int, int),
}

/// Why an f-string body is refused.
pub enum FStringFault {
    Unterminated,
    Empty,
    Unmatched,
}

/// The message of a refused f-string body.
pub open spec fn fault_message(f: FStringFault) -> Seq<char> {
    match f {
        FStringFault::Unterminated => "unterminated f-string expression"@,
        FStringFault::Empty => "empty f-string expression"@,
        FStringFault::Unmatched => "unmatched '}' in f-string"@,
    }
}

/// The literal text from byte `text_start` up to byte `i`, if there is any.
pub open spec fn text_before(text_start: int, i: int) -> Seq<FStringSegment> {
    if text_start < i {
        seq![FStringSegment::Text(text_start, i)]
    } else {
        Seq::empty()
    }
}

/// The hole that a `{` at byte `i` opens ends at a `}` after it.
pub proof fn lemma_hole_end_bounds(b: Seq<u8>, i: int, paren: nat, bracket: nat, brace: nat)
    ensures
        match hole_end(b, i, paren, bracket, brace) {
            Some(e) => i <= e < b.len() && b[e] == 125u8,
            None => true,
        },
    decreases b.len() - i,
{
    if 0 <= i < b.len() {
        let c = b[i];
        if (c == 114u8 && i + 1 < b.len() && (b[i + 1] == 39u8 || b[i + 1] == 34u8)) || c == 39u8
            || c == 34u8 {
            match string_end(b, i) {
                Some(e) => if i < e <= b.len() {
                    lemma_hole_end_bounds(b, e, paren, bracket, brace);
                },
                None => {},
            }
        } else if c == 40u8 {
            lemma_hole_end_bounds(b, i + 1, paren + 1, bracket, brace);
        } else if c == 41u8 {
            lemma_hole_end_bounds(
                b,
                i + 1,
                (if paren > 0 { paren - 1 } else { 0 }) as nat,
                bracket,
                brace,
            );
        } else if c == 91u8 {
            lemma_hole_end_bounds(b, i + 1, paren, bracket + 1, brace);
        } else if c == 93u8 {
            lemma_hole_end_bounds(
                b,
                i + 1,
                paren,
                (if bracket > 0 { bracket - 1 } else { 0 }) as nat,
                brace,
            );
        } else if c == 123u8 {
            lemma_hole_end_bounds(b, i + 1, paren, bracket, brace + 1);
        } else if c == 125u8 {
            if !(paren == 0 && bracket == 0 && brace == 0) {
                lemma_hole_end_bounds(
                    b,
                    i + 1,
                    paren,
                    bracket,
                    (if brace > 0 { brace - 1 } else { 0 }) as nat,
                );
            }
        } else {
            lemma_hole_end_bounds(b, i + 1, paren, bracket, brace);
        }
    }
}

/// How the f-string body `b` splits from byte `i` on, the literal text
/// running since byte `text_start`: `{{` and `}}` stay in the text; a lone
/// `{` opens a hole that runs to the `}` that `hole_end` finds, and must hold
/// more than white space; a lone `}` is refused. A refusal gives the fault
/// and the byte range it points at.
pub open spec fn fstring_scan(b: Seq<u8>, i: int, text_start: int) -> Result<
    Seq<FStringSegment>,
    (FStringFault, int, int),
>
    decreases b.len() - i,
{
    if i < 0 || i >= b.len() {
        Ok(text_before(text_start, b.len() as int))
    } else if b[i] == 123u8 {
        if i + 1 < b.len() && b[i + 1] == 123u8 {
            fstring_scan(b, i + 2, text_start)
        } else {
            match hole_end(b, i + 1, 0, 0, 0) {
                Some(e) => {
                    proof {
                        lemma_hole_end_bounds(b, i + 1, 0, 0, 0);
                    }
                    if is_blank(decode_utf8(b.subrange(i + 1, e))) {
                        Err((FStringFault::Empty, i, e + 1))
                    } else {
                        match fstring_scan(b, e + 1, e + 1) {
                            Ok(rest) => Ok(
                                text_before(text_start, i) + seq![FStringSegment::Hole(i + 1, e)]
                                    + rest,
                            ),
                            Err(f) => Err(f),
                        }
                    }
                },
                None => Err((FStringFault::Unterminated, i, i + 1)),
            }
        }
    } else if b[i] == 125u8 {
        if i + 1 < b.len() && b[i + 1] == 125u8 {
            fstring_scan(b, i + 2, text_start)
        } else {
            Err((FStringFault::Unmatched, i, i + 1))
        }
    } else {
        fstring_scan(b, i + 1, text_start)
    }
}

/// A piece of an f-string body: literal text with its doubled braces
/// collapsed, or the expression text of a hole with the byte offset in the
/// whole source at which that text starts.
#[derive(Debug, PartialEq)]
pub enum FStringPiece {
    Text(String),
    Hole { text: String, offset: usize },
}

/// Whether `p` is what the segment `seg` of the body `b` gives, the body
/// starting at byte `content_offset` of the source.
pub open spec fn piece_fits(p: FStringPiece, seg: FStringSegment, b: Seq<u8>, content_offset: int) -> bool {
    match (p, seg) {
        (FStringPiece::Text(t), FStringSegment::Text(a, z)) => t@ == brace_collapsed(
            decode_utf8(b.subrange(a, z)),
        ),
        (FStringPiece::Hole { text, offset }, FStringSegment::Hole(a, z)) => text@ == decode_utf8(
            b.subrange(a, z),
        ) && offset == content_offset + a,
        _ => false,
    }
}

/// Whether the pieces are, one for one, what the segments give.
pub open spec fn pieces_fit(
    ps: Seq<FStringPiece>,
    segs: Seq<FStringSegment>,
    b: Seq<u8>,
    content_offset: int,
) -> bool {
    &&& ps.len() == segs.len()
    &&& forall|k: int| 0 <= k < ps.len() ==> piece_fits(#[trigger] ps[k], segs[k], b, content_offset)
}

/// Whether `err` is the refusal for `fault` at bytes `start` to `end` of
/// `source`, with the text of the line where it starts.
pub open spec fn is_fstring_error(
    err: ParseError,
    fault: FStringFault,
    start: int,
    end: int,
    source: Seq<char>,
) -> bool {
    let span = span_at(source, start as usize, end as usize);
    &&& err.message@ == fault_message(fault)
    &&& err.span == Some(span)
    &&& match err.line_text {
        Some(t) => line_text_spec(source, span.start.line) == Some(t@),
        None => line_text_spec(source, span.start.line) is None,
    }
}

/// The segments found so far, followed by how the rest of the body splits.
pub open spec fn after(
    done: Seq<FStringSegment>,
    r: Result<Seq<FStringSegment>, (FStringFault, int, int)>,
) -> Result<Seq<FStringSegment>, (FStringFault, int, int)> {
    match r {
        Ok(rest) => Ok(done + rest),
        Err(f) => Err(f),
    }
}

/// Splits the body of an f-string, which starts at byte `content_offset` of
/// `source`, into literal text and holes, as `fstring_scan` describes; the
/// text of each hole is what the expression parser reads next.
pub fn parse_fstring_parts(content: &str, content_offset: usize, source: &str) -> (r: Result<
    Vec<FStringPiece>,
    ParseError,
>)
    requires
        source@.len() < usize::MAX,
        content_offset + content.spec_bytes().len() <= usize::MAX,
    ensures
        match fstring_scan(content.spec_bytes(), 0, 0) {
            Ok(segs) => match r {
                Ok(pieces) => pieces_fit(pieces@, segs, content.spec_bytes(), content_offset as int),
                Err(_) => false,
            },
            Err((fault, start, end)) => match r {
                Err(err) => is_fstring_error(
                    err,
                    fault,
                    content_offset + start,
                    content_offset + end,
                    source@,
                ),
                Ok(_) => false,
            },
        },
{
    let bytes = content.as_bytes();
    let ghost b = content.spec_bytes();
    proof {
        encode_utf8_valid_utf8(content@);
        is_char_boundary_start_end_of_seq(b);
        match fstring_scan(b, 0, 0) {
            Ok(rest) => assert(Seq::<FStringSegment>::empty() + rest =~= rest),
            Err(_) => {},
        }
    }
    let mut pieces: Vec<FStringPiece> = Vec::new();
    let ghost mut done: Seq<FStringSegment> = Seq::empty();
    let mut text_start: usize = 0;
    let mut i: usize = 0;
    while i < bytes.len()
        invariant
            b == bytes@,
            b == content.spec_bytes(),
            valid_utf8(b),
            text_start <= i <= b.len(),
            is_char_boundary(b, text_start as int),
            content_offset + b.len() <= usize::MAX,
            source@.len() < usize::MAX,
            pieces_fit(pieces@, done, b, content_offset as int),
            fstring_scan(b, 0, 0) == after(done, fstring_scan(b, i as int, text_start as int)),
        decreases bytes.len() - i,
    {
        let c = bytes[i];
        if c == 123u8 {
            if i + 1 < bytes.len() && bytes[i + 1] == 123u8 {
                i += 2;
                continue;
            }
            let expr_start = i + 1;
            proof {
                lemma_ascii_boundaries(b, i as int);
                lemma_hole_end_bounds(b, expr_start as int, 0, 0, 0);
            }
            let found = find_fstring_expr_end(content, expr_start);
            match found {
                None => {
                    let span = span_from_offset(content_offset + i, content_offset + i + 1, source);
                    return Err(error_with_span("unterminated f-string expression", span, source));
                },
                Some(expr_end) => {
                    proof {
                        lemma_ascii_boundaries(b, expr_end as int);
                    }
                    let expr_text = byte_slice(content, expr_start, expr_end);
                    if trims_to_empty(expr_text) {
                        let span = span_from_offset(
                            content_offset + i,
                            content_offset + expr_end + 1,
                            source,
                        );
                        return Err(error_with_span("empty f-string expression", span, source));
                    }
                    let ghost old_done = done;
                    let ghost tb = text_before(text_start as int, i as int);
                    if text_start < i {
                        let t = byte_slice(content, text_start, i);
                        pieces.push(FStringPiece::Text(collapse_braces(t)));
                        proof {
                            done = done.push(FStringSegment::Text(text_start as int, i as int));
                        }
                    }
                    pieces.push(FStringPiece::Hole { text: owned(expr_text), offset: content_offset + expr_start });
                    proof {
                        done = done.push(FStringSegment::Hole(expr_start as int, expr_end as int));
                        assert(done =~= old_done + tb + seq![FStringSegment::Hole(expr_start as int, expr_end as int)]);
                        match fstring_scan(b, expr_end + 1, expr_end + 1) {
                            Ok(rest) => {
                                assert(old_done + (tb + seq![FStringSegment::Hole(expr_start as int, expr_end as int)] + rest) =~= done + rest);
                            },
                            Err(_) => {},
                        }
                    }
                    i = expr_end + 1;
                    text_start = i;
                },
            }
        } else if c == 125u8 {
            if i + 1 < bytes.len() && bytes[i + 1] == 125u8 {
                i += 2;
                continue;
            }
            let span = span_from_offset(content_offset + i, content_offset + i + 1, source);
            return Err(error_with_span("unmatched '}' in f-string", span, source));
        } else {
            i += 1;
        }
    }
    let ghost old_done = done;
    if text_start < bytes.len() {
        let t = byte_slice(content, text_start, bytes.len());
        pieces.push(FStringPiece::Text(collapse_braces(t)));
        proof {
            done = done.push(FStringSegment::Text(text_start as int, b.len() as int));
        }
    }
    proof {
        assert(done =~= old_done + text_before(text_start as int, b.len() as int));
    }
    Ok(pieces)
}

/// The bytes of the body that a segment stands for: the text itself, or the
/// expression text of a hole between its braces.
pub open spec fn segment_bytes(b: Seq<u8>, seg: FStringSegment) -> Seq<u8> {
    match seg {
        FStringSegment::Text(a, z) => b.subrange(a, z),
        FStringSegment::Hole(a, z) => seq![123u8] + b.subrange(a, z) + seq![125u8],
    }
}

/// The bytes that the segments stand for, one after another.
pub open spec fn joined_segments(b: Seq<u8>, segs: Seq<FStringSegment>) -> Seq<u8>
    decreases segs.len(),
{
    if segs.len() == 0 {
        Seq::empty()
    } else {
        segment_bytes(b, segs[0]) + joined_segments(b, segs.drop_first())
    }
}

proof fn lemma_joined_single(b: Seq<u8>, seg: FStringSegment)
    ensures
        joined_segments(b, seq![seg]) == segment_bytes(b, seg),
{
    let t = seq![seg];
    assert(t.drop_first() =~= Seq::<FStringSegment>::empty());
    assert(joined_segments(b, t.drop_first()) == Seq::<u8>::empty());
    assert(segment_bytes(b, seg) + Seq::<u8>::empty() =~= segment_bytes(b, seg));
}

proof fn lemma_joined_append(b: Seq<u8>, x: Seq<FStringSegment>, y: Seq<FStringSegment>)
    ensures
        joined_segments(b, x + y) == joined_segments(b, x) + joined_segments(b, y),
    decreases x.len(),
{
    if x.len() == 0 {
        assert(x + y =~= y);
        assert(Seq::<u8>::empty() + joined_segments(b, y) =~= joined_segments(b, y));
    } else {
        assert((x + y).drop_first() =~= x.drop_first() + y);
        assert((x + y)[0] == x[0]);
        lemma_joined_append(b, x.drop_first(), y);
        assert(joined_segments(b, x + y) =~= joined_segments(b, x) + joined_segments(b, y));
    }
}

proof fn lemma_scan_tiles(b: Seq<u8>, i: int, text_start: int)
    requires
        0 <= text_start <= i <= b.len(),
    ensures
        match fstring_scan(b, i, text_start) {
            Ok(segs) => joined_segments(b, segs) == b.subrange(text_start, b.len() as int),
            Err(_) => true,
        },
    decreases b.len() - i,
{
    let n = b.len() as int;
    if i >= n {
        if text_start < n {
            lemma_joined_single(b, FStringSegment::Text(text_start, n));
        } else {
            assert(b.subrange(text_start, n) =~= Seq::<u8>::empty());
        }
    } else if b[i] == 123u8 {
        if i + 1 < n && b[i + 1] == 123u8 {
            lemma_scan_tiles(b, i + 2, text_start);
        } else {
            lemma_hole_end_bounds(b, i + 1, 0, 0, 0);
            match hole_end(b, i + 1, 0, 0, 0) {
                Some(e) => {
                    lemma_scan_tiles(b, e + 1, e + 1);
                    match fstring_scan(b, e + 1, e + 1) {
                        Ok(rest) => {
                            let tb = text_before(text_start, i);
                            let hole = seq![FStringSegment::Hole(i + 1, e)];
                            lemma_joined_append(b, tb + hole, rest);
                            lemma_joined_append(b, tb, hole);
                            lemma_joined_single(b, FStringSegment::Hole(i + 1, e));
                            if text_start < i {
                                lemma_joined_single(b, FStringSegment::Text(text_start, i));
                            } else {
                                assert(joined_segments(b, tb) =~= b.subrange(text_start, i));
                            }
                            assert(b.subrange(text_start, i) + (seq![123u8] + b.subrange(i + 1, e)
                                + seq![125u8]) + b.subrange(e + 1, n) =~= b.subrange(text_start, n));
                        },
                        Err(_) => {},
                    }
                },
                None => {},
            }
        }
    } else if b[i] == 125u8 {
        if i + 1 < n && b[i + 1] == 125u8 {
            lemma_scan_tiles(b, i + 2, text_start);
        }
    } else {
        lemma_scan_tiles(b, i + 1, text_start);
    }
}

/// The pieces of an accepted f-string body account for all of it: its
/// literal stretches, and its holes each between the braces that open and
/// close it, give back the body byte for byte.
pub proof fn lemma_fstring_segments_tile(b: Seq<u8>)
    ensures
        match fstring_scan(b, 0, 0) {
            Ok(segs) => joined_segments(b, segs) == b,
            Err(_) => true,
        },
{
    lemma_scan_tiles(b, 0, 0);
    assert(b.subrange(0, b.len() as int) =~= b);
}

} // verus!
