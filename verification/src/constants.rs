//! The names of the variables that awk and map programs see, the Python
//! names that hold them, and escaping of raw text for Python string
//! literals.
use vstd::prelude::*;
use crate::lower::{
    SNAIL_AWK_FIELDS, SNAIL_AWK_FIELDS_PYVAR, SNAIL_AWK_FNR, SNAIL_AWK_FNR_PYVAR, SNAIL_AWK_MATCH,
    SNAIL_AWK_MATCH_PYVAR, SNAIL_AWK_NR, SNAIL_AWK_NR_PYVAR, SNAIL_AWK_PATH, SNAIL_AWK_PATH_PYVAR,
};
use crate::text::{chars_of, push_char, str_eq};

verus! {

pub const SNAIL_MAP_SRC: &'static str = "$src";
pub const SNAIL_MAP_FD: &'static str = "$fd";
pub const SNAIL_MAP_TEXT: &'static str = "$text";
pub const SNAIL_MAP_SRC_PYVAR: &'static str = "__snail_src";
pub const SNAIL_MAP_FD_PYVAR: &'static str = "__snail_fd";
pub const SNAIL_MAP_TEXT_PYVAR: &'static str = "__snail_text";

/// The Python names that the awk and map variables stand for.
pub open spec fn injected_spec(name: Seq<char>) -> Option<Seq<char>> {
    if name == SNAIL_AWK_NR@ {
        Some(SNAIL_AWK_NR_PYVAR@)
    } else if name == SNAIL_AWK_FNR@ {
        Some(SNAIL_AWK_FNR_PYVAR@)
    } else if name == SNAIL_AWK_PATH@ {
        Some(SNAIL_AWK_PATH_PYVAR@)
    } else if name == SNAIL_AWK_MATCH@ {
        Some(SNAIL_AWK_MATCH_PYVAR@)
    } else if name == SNAIL_AWK_FIELDS@ {
        Some(SNAIL_AWK_FIELDS_PYVAR@)
    } else if name == SNAIL_MAP_SRC@ {
        Some(SNAIL_MAP_SRC_PYVAR@)
    } else if name == SNAIL_MAP_FD@ {
        Some(SNAIL_MAP_FD_PYVAR@)
    } else if name == SNAIL_MAP_TEXT@ {
        Some(SNAIL_MAP_TEXT_PYVAR@)
    } else {
        None
    }
}

/// The Python name that an awk or map variable stands for, if `name` is one.
pub fn injected_py_name(name: &str) -> (r: Option<&'static str>)
    ensures
        match r {
            Some(py) => injected_spec(name@) == Some(py@),
            None => injected_spec(name@) is None,
        },
{
    if str_eq(name, SNAIL_AWK_NR) {
        Some(SNAIL_AWK_NR_PYVAR)
    } else if str_eq(name, SNAIL_AWK_FNR) {
        Some(SNAIL_AWK_FNR_PYVAR)
    } else if str_eq(name, SNAIL_AWK_PATH) {
        Some(SNAIL_AWK_PATH_PYVAR)
    } else if str_eq(name, SNAIL_AWK_MATCH) {
        Some(SNAIL_AWK_MATCH_PYVAR)
    } else if str_eq(name, SNAIL_AWK_FIELDS) {
        Some(SNAIL_AWK_FIELDS_PYVAR)
    } else if str_eq(name, SNAIL_MAP_SRC) {
        Some(SNAIL_MAP_SRC_PYVAR)
    } else if str_eq(name, SNAIL_MAP_FD) {
        Some(SNAIL_MAP_FD_PYVAR)
    } else if str_eq(name, SNAIL_MAP_TEXT) {
        Some(SNAIL_MAP_TEXT_PYVAR)
    } else {
        None
    }
}

/// How one character of raw text is written inside a double-quoted Python
/// string: backslash, quote, newline, return and tab are escaped.
pub open spec fn python_escape_char(c: char) -> Seq<char> {
    if c == '\\' {
        seq!['\\', '\\']
    } else if c == '"' {
        seq!['\\', '"']
    } else if c == '\n' {
        seq!['\\', 'n']
    } else if c == '\r' {
        seq!['\\', 'r']
    } else if c == '\t' {
        seq!['\\', 't']
    } else {
        seq![c]
    }
}

pub open spec fn python_escaped(s: Seq<char>) -> Seq<char>
    decreases s.len(),
{
    if s.len() == 0 {
        Seq::empty()
    } else {
        python_escaped(s.drop_last()) + python_escape_char(s.last())
    }
}

/// Raw text escaped so that a double-quoted Python string literal holds it.
pub fn escape_for_python_string(value: &str) -> (r: String)
    ensures
        r@ == python_escaped(value@),
{
    let chars = chars_of(value);
    let mut escaped = String::new();
    let mut i: usize = 0;
    while i < chars.len()
        invariant
            i <= chars.len(),
            chars@ == value@,
            escaped@ == python_escaped(chars@.take(i as int)),
        decreases chars.len() - i,
    {
        let ch = chars[i];
        let ghost before = escaped@;
        if ch == '\\' {
            push_char(&mut escaped, '\\');
            push_char(&mut escaped, '\\');
        } else if ch == '"' {
            push_char(&mut escaped, '\\');
            push_char(&mut escaped, '"');
        } else if ch == '\n' {
            push_char(&mut escaped, '\\');
            push_char(&mut escaped, 'n');
        } else if ch == '\r' {
            push_char(&mut escaped, '\\');
            push_char(&mut escaped, 'r');
        } else if ch == '\t' {
            push_char(&mut escaped, '\\');
            push_char(&mut escaped, 't');
        } else {
            push_char(&mut escaped, ch);
        }
        assert(escaped@ =~= before + python_escape_char(ch));
        assert(chars@.take(i + 1).drop_last() =~= chars@.take(i as int));
        i += 1;
    }
    assert(chars@.take(i as int) =~= value@);
    escaped
}

} // verus!
