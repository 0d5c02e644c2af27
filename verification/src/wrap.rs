//! The source that each mode hands to the parser: awk code goes inside a
//! `lines { ... }` block, map code inside a `files { ... }` block, and the
//! command line's BEGIN code comes before it and its END code after it, each
//! piece separated by a newline and a unit separator.
use vstd::prelude::*;
use crate::constants::{escape_for_python_string, python_escaped};
use crate::emit_expr::{join, join_strings};
use crate::pyast::strings_view;
use crate::text::{owned, push_str, str_eq};

verus! {

/// What separates the pieces of a wrapped source.
pub const SEGMENT_SEPARATOR: &'static str = "\n\u{1f}";

/// A mode that is not one of `snail`, `awk` and `map`.
#[derive(Debug, Clone, PartialEq, Eq)]
pub struct WrapError {
    pub message: String,
}

/// The message for an unknown mode.
pub open spec fn unknown_mode_message(mode: Seq<char>) -> Seq<char> {
    "unknown mode: "@ + mode + " (expected 'snail', 'awk', or 'map')"@
}

/// The keyword arguments of `lines`: the field separators, escaped for a
/// Python string, and `ws=True` when white space is kept.
pub open spec fn lines_kwargs(field_separators: Option<Seq<char>>, include_whitespace: Option<bool>) -> Seq<
    Seq<char>,
> {
    (match field_separators {
        Some(sep) => seq!["sep=\""@ + python_escaped(sep) + "\""@],
        None => Seq::empty(),
    }) + (if include_whitespace == Some(true) {
        seq!["ws=True"@]
    } else {
        Seq::empty()
    })
}

/// `(kw, ..)` after `lines`, or nothing without keyword arguments.
pub open spec fn lines_arguments(kwargs: Seq<Seq<char>>) -> Seq<char> {
    if kwargs.len() == 0 {
        Seq::empty()
    } else {
        "("@ + join(kwargs, ", "@) + ")"@
    }
}

/// The source wrapped for `mode`, or `None` for an unknown mode: in snail
/// mode the source alone when there is no BEGIN or END code; in awk mode
/// inside `lines`; in map mode inside `files`; BEGIN code first and END code
/// last.
pub open spec fn wrap_source_spec(
    source: Seq<char>,
    mode: Seq<char>,
    begin: Seq<Seq<char>>,
    end: Seq<Seq<char>>,
    field_separators: Option<Seq<char>>,
    include_whitespace: Option<bool>,
) -> Option<Seq<char>> {
    if mode == "snail"@ {
        Some(
            if begin.len() == 0 && end.len() == 0 {
                source
            } else {
                join(begin + seq![source] + end, SEGMENT_SEPARATOR@)
            },
        )
    } else if mode == "awk"@ {
        Some(
            join(
                begin + seq![
                    "lines"@ + lines_arguments(lines_kwargs(field_separators, include_whitespace))
                        + " {\n"@ + source + "\n}"@,
                ] + end,
                SEGMENT_SEPARATOR@,
            ),
        )
    } else if mode == "map"@ {
        Some(join(begin + seq!["files {\n"@ + source + "\n}"@] + end, SEGMENT_SEPARATOR@))
    } else {
        None
    }
}

pub open spec fn opt_str_view(o: Option<&str>) -> Option<Seq<char>> {
    match o {
        Some(s) => Some(s@),
        None => None,
    }
}

/// Copies of the strings of `v`, appended to `out`.
fn push_copies(out: &mut Vec<String>, v: &Vec<String>)
    ensures
        strings_view(*final(out)) == strings_view(*old(out)) + strings_view(*v),
{
    let ghost start = strings_view(*out);
    let mut i: usize = 0;
    while i < v.len()
        invariant
            i <= v.len(),
            strings_view(*out) == start + strings_view(*v).take(i as int),
        decreases v.len() - i,
    {
        let ghost before = strings_view(*out);
        out.push(v[i].clone());
        assert(strings_view(*out) =~= before.push(v[i as int]@));
        assert(strings_view(*v).take(i + 1) =~= strings_view(*v).take(i as int).push(v[i as int]@));
        i += 1;
    }
    assert(strings_view(*v).take(v.len() as int) =~= strings_view(*v));
}

/// The keyword arguments of `lines` as text, with their brackets.
fn lines_arguments_text(field_separators: Option<&str>, include_whitespace: Option<bool>) -> (r: String)
    ensures
        r@ == lines_arguments(lines_kwargs(opt_str_view(field_separators), include_whitespace)),
{
    let mut kwargs: Vec<String> = Vec::new();
    let ghost kw = lines_kwargs(opt_str_view(field_separators), include_whitespace);
    match field_separators {
        Some(sep) => {
            let mut item = owned("sep=\"");
            push_str(&mut item, escape_for_python_string(sep).as_str());
            push_str(&mut item, "\"");
            kwargs.push(item);
        },
        None => {},
    }
    let ws = match include_whitespace {
        Some(b) => b,
        None => false,
    };
    if ws {
        kwargs.push(owned("ws=True"));
    }
    assert(strings_view(kwargs) =~= kw);
    if kwargs.len() == 0 {
        String::new()
    } else {
        let mut out = owned("(");
        push_str(&mut out, join_strings(&kwargs, ", ").as_str());
        push_str(&mut out, ")");
        out
    }
}

/// The source that the parser reads for `mode`, with the command line's
/// BEGIN and END code; an error for a mode other than `snail`, `awk` and
/// `map`.
pub fn wrap_source(
    source: &str,
    mode: &str,
    begin_code: &Vec<String>,
    end_code: &Vec<String>,
    field_separators: Option<&str>,
    include_whitespace: Option<bool>,
) -> (r: Result<String, WrapError>)
    ensures
        match wrap_source_spec(
            source@,
            mode@,
            strings_view(*begin_code),
            strings_view(*end_code),
            opt_str_view(field_separators),
            include_whitespace,
        ) {
            Some(text) => r matches Ok(s) && s@ == text,
            None => r matches Err(e) && e.message@ == unknown_mode_message(mode@),
        },
{
    let is_snail = str_eq(mode, "snail");
    let is_awk = str_eq(mode, "awk");
    let is_map = str_eq(mode, "map");
    if !is_snail && !is_awk && !is_map {
        let mut message = owned("unknown mode: ");
        push_str(&mut message, mode);
        push_str(&mut message, " (expected 'snail', 'awk', or 'map')");
        return Err(WrapError { message });
    }
    if is_snail && begin_code.len() == 0 && end_code.len() == 0 {
        return Ok(owned(source));
    }
    let mut segments: Vec<String> = Vec::new();
    push_copies(&mut segments, begin_code);
    let middle = if is_snail {
        owned(source)
    } else if is_awk {
        let mut m = owned("lines");
        push_str(&mut m, lines_arguments_text(field_separators, include_whitespace).as_str());
        push_str(&mut m, " {\n");
        push_str(&mut m, source);
        push_str(&mut m, "\n}");
        m
    } else {
        let mut m = owned("files {\n");
        push_str(&mut m, source);
        push_str(&mut m, "\n}");
        m
    };
    let ghost before = strings_view(segments);
    segments.push(middle);
    assert(strings_view(segments) =~= before.push(middle@));
    push_copies(&mut segments, end_code);
    let ghost mid = seq![middle@];
    assert(strings_view(segments) =~= strings_view(*begin_code) + mid + strings_view(*end_code));
    Ok(join_strings(&segments, SEGMENT_SEPARATOR))
}

} // verus!
