//! The source formatter: strips spaces and tabs from the ends of lines and
//! ends the text with exactly the newlines its lines call for; and the
//! unified diff between a file and its formatted text.
use vstd::prelude::*;
use crate::emit_expr::{join, join_strings};
use crate::pyast::strings_view;
use crate::text::{chars_of, push_char};

verus! {

/// The index of the first newline at or after `i`, or the length of `s`
/// when there is none.
pub open spec fn next_newline(s: Seq<char>, i: int) -> int
    decreases s.len() - i,
{
    if i >= s.len() {
        s.len() as int
    } else if s[i] == '\n' {
        i
    } else {
        next_newline(s, i + 1)
    }
}

/// `next_newline` finds the first newline from `i` on, or the end when
/// there is none.
pub proof fn lemma_next_newline(s: Seq<char>, i: int)
    requires
        0 <= i <= s.len(),
    ensures
        i <= next_newline(s, i) <= s.len(),
        next_newline(s, i) < s.len() ==> s[next_newline(s, i)] == '\n',
        forall|m: int| i <= m < next_newline(s, i) ==> s[m] != '\n',
    decreases s.len() - i,
{
    if i < s.len() && s[i] != '\n' {
        lemma_next_newline(s, i + 1);
    }
}

/// A line without the carriage return of a `\r\n` ending.
pub open spec fn strip_cr(l: Seq<char>) -> Seq<char> {
    if l.len() > 0 && l.last() == '\r' {
        l.drop_last()
    } else {
        l
    }
}

/// A line without the spaces and tabs at its end.
pub open spec fn trim_end(l: Seq<char>) -> Seq<char>
    decreases l.len(),
{
    if l.len() > 0 && (l.last() == ' ' || l.last() == '\t') {
        trim_end(l.drop_last())
    } else {
        l
    }
}

/// The trimmed lines of `s` from index `i` on: lines end at `\n` or
/// `\r\n`, and a final line needs no ending.
pub open spec fn trimmed_lines(s: Seq<char>, i: int) -> Seq<Seq<char>>
    decreases s.len() - i,
{
    if i < 0 || i >= s.len() {
        Seq::empty()
    } else {
        let k = next_newline(s, i);
        if k >= s.len() {
            seq![trim_end(s.subrange(i, s.len() as int))]
        } else if k < i {
            Seq::empty()
        } else {
            seq![trim_end(strip_cr(s.subrange(i, k)))] + trimmed_lines(s, k + 1)
        }
    }
}

/// The formatted text: the trimmed lines joined by newlines, with a final
/// newline whenever the text has a line or ended in a newline.
pub open spec fn formatted_text(s: Seq<char>) -> Seq<char> {
    let lines = trimmed_lines(s, 0);
    join(
        if lines.len() > 0 || (s.len() > 0 && s.last() == '\n') {
            lines.push(Seq::empty())
        } else {
            lines
        },
        seq!['\n'],
    )
}

/// The characters of `chars` from `start` up to `end`, without the spaces
/// and tabs at their end.
fn trimmed_line(chars: &Vec<char>, start: usize, end: usize) -> (r: String)
    requires
        start <= end <= chars.len(),
    ensures
        r@ == trim_end(chars@.subrange(start as int, end as int)),
{
    let mut e = end;
    while e > start && (chars[e - 1] == ' ' || chars[e - 1] == '\t')
        invariant
            start <= e <= end <= chars.len(),
            trim_end(chars@.subrange(start as int, e as int)) == trim_end(
                chars@.subrange(start as int, end as int),
            ),
        decreases e,
    {
        assert(chars@.subrange(start as int, e as int).drop_last() =~= chars@.subrange(
            start as int,
            e - 1,
        ));
        e -= 1;
    }
    let mut out = String::new();
    let mut k = start;
    while k < e
        invariant
            start <= k <= e <= chars.len(),
            out@ == chars@.subrange(start as int, k as int),
        decreases e - k,
    {
        push_char(&mut out, chars[k]);
        assert(chars@.subrange(start as int, k + 1) =~= chars@.subrange(start as int, k as int).push(
            chars@[k as int],
        ));
        k += 1;
    }
    proof {
        let sub = chars@.subrange(start as int, e as int);
        if sub.len() > 0 {
            assert(sub.last() == chars@[e - 1]);
        }
    }
    out
}

/// Formats Snail source: spaces and tabs are stripped from the end of every
/// line, and the text ends in a single newline unless it is empty.
pub fn format_snail_source(source: &str) -> (r: String)
    ensures
        r@ == formatted_text(source@),
{
    let chars = chars_of(source);
    let ghost s = chars@;
    let mut lines: Vec<String> = Vec::new();
    let mut i: usize = 0;
    while i < chars.len()
        invariant
            i <= chars.len(),
            s == chars@,
            s == source@,
            trimmed_lines(s, 0) == strings_view(lines) + trimmed_lines(s, i as int),
        decreases chars.len() - i,
    {
        let mut k = i;
        while k < chars.len() && chars[k] != '\n'
            invariant
                i <= k <= chars.len(),
                s == chars@,
                next_newline(s, i as int) == next_newline(s, k as int),
            decreases chars.len() - k,
        {
            k += 1;
        }
        proof {
            lemma_next_newline(s, i as int);
        }
        let ghost before = strings_view(lines);
        if k == chars.len() {
            let line = trimmed_line(&chars, i, k);
            lines.push(line);
            assert(strings_view(lines) =~= before + trimmed_lines(s, i as int));
            assert(trimmed_lines(s, k as int) =~= Seq::<Seq<char>>::empty());
            i = k;
        } else {
            let end = if k > i && chars[k - 1] == '\r' {
                k - 1
            } else {
                k
            };
            let line = trimmed_line(&chars, i, end);
            proof {
                let sub = s.subrange(i as int, k as int);
                if sub.len() > 0 {
                    assert(sub.last() == s[k - 1]);
                }
                assert(strip_cr(sub) =~= s.subrange(i as int, end as int));
            }
            lines.push(line);
            assert(strings_view(lines) =~= before + seq![trim_end(strip_cr(s.subrange(i as int, k as int)))]);
            i = k + 1;
        }
    }
    assert(trimmed_lines(s, i as int) =~= Seq::<Seq<char>>::empty());
    let ghost found = strings_view(lines);
    if lines.len() > 0 || (chars.len() > 0 && chars[chars.len() - 1] == '\n') {
        lines.push(String::new());
        assert(strings_view(lines) =~= found.push(Seq::empty()));
    }
    proof {
        reveal_strlit("\n");
        assert("\n"@ =~= seq!['\n']);
        if chars.len() > 0 {
            assert(s.last() == chars@[chars.len() - 1]);
        }
    }
    join_strings(&lines, "\n")
}

// ---------------------------------------------------------------------------
// Laws of formatting.

/// A line that does not end in a space or a tab.
pub open spec fn ends_clean(l: Seq<char>) -> bool {
    l.len() == 0 || (l.last() != ' ' && l.last() != '\t')
}

pub open spec fn has_no_newline(l: Seq<char>) -> bool {
    forall|i: int| 0 <= i < l.len() ==> #[trigger] l[i] != '\n'
}

/// No newline of `t` comes right after a space or a tab.
pub open spec fn no_trailing_blanks(t: Seq<char>) -> bool {
    forall|i: int| 0 < i < t.len() && #[trigger] t[i] == '\n' ==> t[i - 1] != ' ' && t[i - 1] != '\t'
}

proof fn lemma_trim_end(l: Seq<char>)
    ensures
        ends_clean(trim_end(l)),
        trim_end(l).len() <= l.len(),
        trim_end(l) == l.subrange(0, trim_end(l).len() as int),
    decreases l.len(),
{
    if l.len() > 0 && (l.last() == ' ' || l.last() == '\t') {
        lemma_trim_end(l.drop_last());
        assert(l.drop_last().subrange(0, trim_end(l).len() as int) =~= l.subrange(0, trim_end(l).len() as int));
    } else {
        assert(l.subrange(0, l.len() as int) =~= l);
    }
}

proof fn lemma_trimmed_lines(s: Seq<char>, i: int)
    requires
        0 <= i,
    ensures
        forall|j: int|
            0 <= j < trimmed_lines(s, i).len() ==> ends_clean(#[trigger] trimmed_lines(s, i)[j])
                && has_no_newline(trimmed_lines(s, i)[j]),
        i < s.len() ==> trimmed_lines(s, i).len() > 0,
    decreases s.len() - i,
{
    if i < s.len() {
        lemma_next_newline(s, i);
        let k = next_newline(s, i);
        let sub = if k >= s.len() {
            s.subrange(i, s.len() as int)
        } else {
            strip_cr(s.subrange(i, k))
        };
        assert(has_no_newline(sub)) by {
            assert forall|m: int| 0 <= m < sub.len() implies sub[m] != '\n' by {
                assert(sub[m] == s[i + m]);
            }
        }
        lemma_trim_end(sub);
        let line = trim_end(sub);
        assert(has_no_newline(line)) by {
            assert forall|m: int| 0 <= m < line.len() implies line[m] != '\n' by {
                assert(line[m] == sub[m]);
            }
        }
        if k < s.len() {
            lemma_trimmed_lines(s, k + 1);
            let rest = trimmed_lines(s, k + 1);
            assert(trimmed_lines(s, i) == seq![line] + rest);
            assert forall|j: int| 0 <= j < trimmed_lines(s, i).len() implies ends_clean(
                #[trigger] trimmed_lines(s, i)[j],
            ) && has_no_newline(trimmed_lines(s, i)[j]) by {
                if j > 0 {
                    assert(trimmed_lines(s, i)[j] == rest[j - 1]);
                }
            }
        }
    }
}

proof fn lemma_join_clean(items: Seq<Seq<char>>)
    requires
        forall|j: int| 0 <= j < items.len() ==> ends_clean(#[trigger] items[j]) && has_no_newline(items[j]),
    ensures
        no_trailing_blanks(join(items, seq!['\n'])),
        ends_clean(join(items, seq!['\n'])),
    decreases items.len(),
{
    let t = join(items, seq!['\n']);
    if items.len() == 1 {
        assert(ends_clean(items[0]) && has_no_newline(items[0]));
    } else if items.len() > 1 {
        let init = items.drop_last();
        let l = items.last();
        assert(ends_clean(items[items.len() - 1]) && has_no_newline(items[items.len() - 1]));
        lemma_join_clean(init);
        let a = join(init, seq!['\n']);
        assert(t == a + seq!['\n'] + l);
        assert forall|i: int| 0 < i < t.len() && #[trigger] t[i] == '\n' implies t[i - 1] != ' ' && t[i - 1]
            != '\t' by {
            if i < a.len() {
                assert(t[i] == a[i] && t[i - 1] == a[i - 1]);
            } else if i == a.len() {
                assert(t[i - 1] == a.last());
            } else {
                assert(t[i] == l[i - a.len() - 1]);
            }
        }
        if l.len() == 0 {
            assert(t.last() == '\n');
        } else {
            assert(t.last() == l.last());
        }
    }
}

/// Formatted text has no space or tab at the end of a line; it is empty
/// exactly when the source is, and ends in a newline otherwise.
pub proof fn lemma_formatted_shape(s: Seq<char>)
    ensures
        no_trailing_blanks(formatted_text(s)),
        (formatted_text(s).len() == 0) <==> (s.len() == 0),
        s.len() > 0 ==> formatted_text(s).last() == '\n',
{
    lemma_trimmed_lines(s, 0);
    let lines = trimmed_lines(s, 0);
    if s.len() == 0 {
        assert(formatted_text(s) =~= Seq::<char>::empty());
    } else {
        let items = lines.push(Seq::empty());
        assert forall|j: int| 0 <= j < items.len() implies ends_clean(#[trigger] items[j]) && has_no_newline(
            items[j],
        ) by {
            if j < lines.len() {
                assert(items[j] == lines[j]);
            }
        }
        lemma_join_clean(items);
        assert(items.drop_last() =~= lines);
        let a = join(lines, seq!['\n']);
        assert(formatted_text(s) == a + seq!['\n'] + Seq::<char>::empty());
        assert(formatted_text(s).last() == '\n');
    }
}

pub open spec fn has_no_cr(l: Seq<char>) -> bool {
    forall|i: int| 0 <= i < l.len() ==> #[trigger] l[i] != '\r'
}

proof fn lemma_trimmed_lines_no_cr(s: Seq<char>, i: int)
    requires
        0 <= i,
        has_no_cr(s),
    ensures
        forall|j: int| 0 <= j < trimmed_lines(s, i).len() ==> has_no_cr(#[trigger] trimmed_lines(s, i)[j]),
    decreases s.len() - i,
{
    if i < s.len() {
        lemma_next_newline(s, i);
        let k = next_newline(s, i);
        let sub = if k >= s.len() {
            s.subrange(i, s.len() as int)
        } else {
            strip_cr(s.subrange(i, k))
        };
        lemma_trim_end(sub);
        let line = trim_end(sub);
        assert(has_no_cr(line)) by {
            assert forall|m: int| 0 <= m < line.len() implies line[m] != '\r' by {
                assert(line[m] == sub[m]);
                assert(sub[m] == s[i + m]);
            }
        }
        if k < s.len() {
            lemma_trimmed_lines_no_cr(s, k + 1);
            let rest = trimmed_lines(s, k + 1);
            assert forall|j: int| 0 <= j < trimmed_lines(s, i).len() implies has_no_cr(
                #[trigger] trimmed_lines(s, i)[j],
            ) by {
                if j > 0 {
                    assert(trimmed_lines(s, i)[j] == rest[j - 1]);
                }
            }
        }
    }
}

proof fn lemma_join_front(items: Seq<Seq<char>>, sep: Seq<char>)
    requires
        items.len() >= 2,
    ensures
        join(items, sep) == items[0] + sep + join(items.drop_first(), sep),
    decreases items.len(),
{
    let rest = items.drop_first();
    if items.len() == 2 {
        assert(items.drop_last() =~= seq![items[0]]);
        assert(rest =~= seq![items[1]]);
        assert(join(items.drop_last(), sep) == items[0]);
        assert(join(rest, sep) == items[1]);
        assert(items.last() == items[1]);
    } else {
        let init = items.drop_last();
        lemma_join_front(init, sep);
        assert(init.drop_first() =~= rest.drop_last());
        assert(rest.last() == items.last());
        assert(join(items, sep) =~= items[0] + sep + join(rest, sep));
    }
}

proof fn lemma_next_newline_shift(p: Seq<char>, r: Seq<char>, k: int)
    requires
        0 <= k <= r.len(),
    ensures
        next_newline(p + r, p.len() + k) == p.len() + next_newline(r, k),
    decreases r.len() - k,
{
    if k < r.len() {
        assert((p + r)[p.len() + k] == r[k]);
        if r[k] != '\n' {
            lemma_next_newline_shift(p, r, k + 1);
        }
    }
}

proof fn lemma_trimmed_lines_shift(p: Seq<char>, r: Seq<char>, k: int)
    requires
        0 <= k,
    ensures
        trimmed_lines(p + r, p.len() + k) == trimmed_lines(r, k),
    decreases r.len() - k,
{
    let t = p + r;
    if k < r.len() {
        lemma_next_newline_shift(p, r, k);
        lemma_next_newline(r, k);
        let nk = next_newline(r, k);
        if nk >= r.len() {
            assert(t.subrange(p.len() + k, t.len() as int) =~= r.subrange(k, r.len() as int));
        } else {
            assert(t.subrange(p.len() + k, p.len() + nk) =~= r.subrange(k, nk));
            lemma_trimmed_lines_shift(p, r, nk + 1);
        }
    }
}

proof fn lemma_clean_line_is_kept(x: Seq<char>)
    requires
        ends_clean(x),
        has_no_cr(x),
    ensures
        trim_end(strip_cr(x)) == x,
{
    if x.len() > 0 {
        assert(x[x.len() - 1] != '\r');
    }
}

proof fn lemma_lines_of_joined(items: Seq<Seq<char>>)
    requires
        items.len() >= 1,
        forall|j: int|
            0 <= j < items.len() ==> ends_clean(#[trigger] items[j]) && has_no_newline(items[j]) && has_no_cr(
                items[j],
            ),
    ensures
        trimmed_lines(join(items.push(Seq::empty()), seq!['\n']), 0) == items,
    decreases items.len(),
{
    let x = items[0];
    assert(ends_clean(items[0]) && has_no_newline(items[0]) && has_no_cr(items[0]));
    let all = items.push(Seq::empty());
    lemma_join_front(all, seq!['\n']);
    let rest = items.drop_first();
    assert(all.drop_first() =~= rest.push(Seq::empty()));
    let tail = join(rest.push(Seq::empty()), seq!['\n']);
    let head = x + seq!['\n'];
    let t = join(all, seq!['\n']);
    assert(t =~= head + tail);
    assert(t == x + seq!['\n'] + tail);
    lemma_next_newline_shift(Seq::empty(), t, 0);
    assert(next_newline(t, 0) == x.len()) by {
        assert forall|m: int| 0 <= m < x.len() implies t[m] != '\n' by {
            assert(t[m] == x[m]);
        }
        lemma_next_newline(t, 0);
        assert(t[x.len() as int] == '\n');
        if next_newline(t, 0) < x.len() {
            assert(t[next_newline(t, 0)] == x[next_newline(t, 0)]);
        }
    }
    assert(t.subrange(0, x.len() as int) =~= x);
    lemma_clean_line_is_kept(x);
    lemma_trimmed_lines_shift(head, tail, 0);
    if items.len() == 1 {
        assert(rest =~= Seq::<Seq<char>>::empty());
        assert(rest.push(Seq::empty()) =~= seq![Seq::<char>::empty()]);
        assert(tail =~= Seq::<char>::empty());
        assert(trimmed_lines(tail, 0) =~= Seq::<Seq<char>>::empty());
        assert(trimmed_lines(t, 0) =~= seq![x]);
        assert(items =~= seq![x]);
    } else {
        assert forall|j: int|
            0 <= j < rest.len() implies ends_clean(#[trigger] rest[j]) && has_no_newline(rest[j]) && has_no_cr(
                rest[j],
            ) by {
            assert(rest[j] == items[j + 1]);
        }
        lemma_lines_of_joined(rest);
        assert(trimmed_lines(t, 0) =~= seq![x] + rest);
        assert(items =~= seq![x] + rest);
    }
}

/// Formatting formatted text changes nothing, for text without carriage
/// returns.
pub proof fn lemma_format_idempotent(s: Seq<char>)
    requires
        has_no_cr(s),
    ensures
        formatted_text(formatted_text(s)) == formatted_text(s),
{
    if s.len() == 0 {
        assert(formatted_text(s) =~= Seq::<char>::empty());
    } else {
        lemma_trimmed_lines(s, 0);
        lemma_trimmed_lines_no_cr(s, 0);
        let lines = trimmed_lines(s, 0);
        let f = formatted_text(s);
        assert(f == join(lines.push(Seq::empty()), seq!['\n']));
        lemma_lines_of_joined(lines);
        assert(trimmed_lines(f, 0) == lines);
    }
}

/// The unified diff that the `similar` crate writes for two texts compared
/// line by line: `context` lines of context round each change, and the
/// header `--- name` / `+++ name` before the first hunk; or the message of
/// the error met on the way.
pub uninterp spec fn similar_unified_diff(
    original: Seq<char>,
    formatted: Seq<char>,
    name: Seq<char>,
    context: usize,
) -> Result<Seq<char>, Seq<char>>;

/// `similar::TextDiff::from_lines(original, formatted).unified_diff()` with
/// the given context radius and `name` on both header lines, written out and
/// read back as UTF-8. The result is named, not described: its contents are
/// what `similar` computes from these four arguments and nothing else (its
/// default configuration sets no deadline). The hunk grouping doubles the
/// context radius, so a radius above half of `usize::MAX` is left out.
#[verifier::external_body]
fn text_diff_unified(original: &str, formatted: &str, name: &str, context: usize) -> (r: Result<
    String,
    String,
>)
    requires
        context <= usize::MAX / 2,
    ensures
        match r {
            Ok(text) => similar_unified_diff(original@, formatted@, name@, context) == Ok::<
                Seq<char>,
                Seq<char>,
            >(text@),
            Err(message) => similar_unified_diff(original@, formatted@, name@, context) == Err::<
                Seq<char>,
                Seq<char>,
            >(message@),
        },
{
    let diff = similar::TextDiff::from_lines(original, formatted);
    let mut out: Vec<u8> = Vec::new();
    diff.unified_diff().context_radius(context).header(name, name).to_writer(&mut out).map_err(
        |err| err.to_string(),
    )?;
    String::from_utf8(out).map_err(|err| err.to_string())
}

/// The lines of context shown round each change of a diff.
pub const DIFF_CONTEXT_LINES: usize = 3;

/// The unified diff between a file's text and its formatted text, with
/// three lines of context and the file's path on both header lines.
pub fn unified_diff(original: &str, formatted: &str, path: &str) -> (r: Result<String, String>)
    ensures
        match r {
            Ok(text) => similar_unified_diff(original@, formatted@, path@, DIFF_CONTEXT_LINES) == Ok::<
                Seq<char>,
                Seq<char>,
            >(text@),
            Err(message) => similar_unified_diff(original@, formatted@, path@, DIFF_CONTEXT_LINES) == Err::<
                Seq<char>,
                Seq<char>,
            >(message@),
        },
{
    text_diff_unified(original, formatted, path, DIFF_CONTEXT_LINES)
}

} // verus!
