//! Character-level helpers shared by the compiler passes: conversions between
//! `str`, `String` and character vectors, exact string comparison, decimal
//! rendering of integers and the decimal parser used for awk field indices.
use vstd::prelude::*;

verus! {

/// The characters of `s`, in order.
pub fn chars_of(s: &str) -> (v: Vec<char>)
    ensures
        v@ == s@,
{
    let mut v: Vec<char> = Vec::new();
    for c in it: s.chars()
        invariant
            v@ == it.seq().take(it.index() as int),
    {
        v.push(c);
    }
    v
}

/// `String::push`: appends the character `c` at the end of `s`.
#[verifier::external_body]
pub(crate) fn push_char(s: &mut String, c: char)
    ensures
        final(s)@ == old(s)@.push(c),
{
    s.push(c)
}

/// Appends every character of `v` to `s`.
pub fn push_chars(s: &mut String, v: &Vec<char>)
    ensures
        final(s)@ == old(s)@ + v@,
{
    let mut i: usize = 0;
    while i < v.len()
        invariant
            i <= v.len(),
            s@ == old(s)@ + v@.take(i as int),
        decreases v.len() - i,
    {
        push_char(s, v[i]);
        i += 1;
        assert(v@.take(i as int) == v@.take(i - 1).push(v@[i - 1]));
    }
    assert(v@.take(v.len() as int) == v@);
}

/// Appends every character of `t` to `s`.
pub fn push_str(s: &mut String, t: &str)
    ensures
        final(s)@ == old(s)@ + t@,
{
    let v = chars_of(t);
    push_chars(s, &v);
}

/// A `String` holding exactly the characters of `v`.
pub fn string_from_chars(v: &Vec<char>) -> (s: String)
    ensures
        s@ == v@,
{
    let mut s = String::new();
    push_chars(&mut s, v);
    s
}

/// A fresh `String` equal to `s`.
pub fn owned(s: &str) -> (r: String)
    ensures
        r@ == s@,
{
    s.to_owned()
}

/// Exact comparison of two character sequences.
pub fn chars_eq(a: &Vec<char>, b: &Vec<char>) -> (r: bool)
    ensures
        r == (a@ == b@),
{
    if a.len() != b.len() {
        return false;
    }
    let mut i: usize = 0;
    while i < a.len()
        invariant
            i <= a.len(),
            a.len() == b.len(),
            forall|j: int| 0 <= j < i ==> a@[j] == b@[j],
        decreases a.len() - i,
    {
        if a[i] != b[i] {
            return false;
        }
        i += 1;
    }
    assert(a@ =~= b@);
    true
}

/// Exact comparison of two strings, character by character.
pub fn str_eq(a: &str, b: &str) -> (r: bool)
    ensures
        r == (a@ == b@),
{
    let va = chars_of(a);
    let vb = chars_of(b);
    chars_eq(&va, &vb)
}

/// The decimal digit character for `d` (0 to 9).
pub open spec fn digit_char(d: int) -> char {
    if d == 0 {
        '0'
    } else if d == 1 {
        '1'
    } else if d == 2 {
        '2'
    } else if d == 3 {
        '3'
    } else if d == 4 {
        '4'
    } else if d == 5 {
        '5'
    } else if d == 6 {
        '6'
    } else if d == 7 {
        '7'
    } else if d == 8 {
        '8'
    } else {
        '9'
    }
}

/// The value of an ASCII decimal digit.
pub open spec fn digit_value(c: char) -> int {
    (c as int) - ('0' as int)
}

pub open spec fn is_digit(c: char) -> bool {
    '0' <= c && c <= '9'
}

/// Decimal rendering of a natural number, without leading zeros.
pub open spec fn nat_text(n: nat) -> Seq<char>
    decreases n,
{
    if n < 10 {
        seq![digit_char(n as int)]
    } else {
        nat_text(n / 10).push(digit_char((n % 10) as int))
    }
}

/// Decimal rendering of an integer, as Rust's `to_string` writes it.
pub open spec fn int_text(v: int) -> Seq<char> {
    if v < 0 {
        seq!['-'] + nat_text((-v) as nat)
    } else {
        nat_text(v as nat)
    }
}

fn digit_to_char(d: u64) -> (c: char)
    requires
        d < 10,
    ensures
        c == digit_char(d as int),
{
    if d == 0 {
        '0'
    } else if d == 1 {
        '1'
    } else if d == 2 {
        '2'
    } else if d == 3 {
        '3'
    } else if d == 4 {
        '4'
    } else if d == 5 {
        '5'
    } else if d == 6 {
        '6'
    } else if d == 7 {
        '7'
    } else if d == 8 {
        '8'
    } else {
        '9'
    }
}

/// Decimal digits of `n`.
pub fn u64_text(n: u64) -> (v: Vec<char>)
    ensures
        v@ == nat_text(n as nat),
    decreases n,
{
    if n < 10 {
        let mut v: Vec<char> = Vec::new();
        v.push(digit_to_char(n));
        v
    } else {
        let mut v = u64_text(n / 10);
        v.push(digit_to_char(n % 10));
        v
    }
}

/// Decimal rendering of `v` (a leading `-` for negative values).
pub fn i64_text(v: i64) -> (r: Vec<char>)
    ensures
        r@ == int_text(v as int),
{
    if v < 0 {
        let magnitude: u64 = (-(v + 1)) as u64 + 1;
        let digits = u64_text(magnitude);
        let mut r: Vec<char> = Vec::new();
        r.push('-');
        let mut i: usize = 0;
        while i < digits.len()
            invariant
                i <= digits.len(),
                r@ == seq!['-'] + digits@.take(i as int),
            decreases digits.len() - i,
        {
            r.push(digits[i]);
            i += 1;
            assert(digits@.take(i as int) == digits@.take(i - 1).push(digits@[i - 1]));
        }
        assert(digits@.take(digits.len() as int) == digits@);
        r
    } else {
        u64_text(v as u64)
    }
}

/// Value of a run of decimal digits.
pub open spec fn digits_value(s: Seq<char>) -> int
    decreases s.len(),
{
    if s.len() == 0 {
        0
    } else {
        10 * digits_value(s.drop_last()) + digit_value(s.last())
    }
}

pub open spec fn all_digits(s: Seq<char>) -> bool {
    s.len() > 0 && forall|i: int| 0 <= i < s.len() ==> is_digit(#[trigger] s[i])
}

/// The text after an optional leading sign.
pub open spec fn unsigned_part(s: Seq<char>) -> Seq<char> {
    if s.len() > 0 && (s[0] == '-' || s[0] == '+') {
        s.drop_first()
    } else {
        s
    }
}

pub open spec fn is_negative_text(s: Seq<char>) -> bool {
    s.len() > 0 && s[0] == '-'
}

/// What `str::parse::<i32>` gives for `s`: an optional sign followed by one or
/// more decimal digits whose value lies in the range of `i32`.
pub open spec fn parse_i32_spec(s: Seq<char>) -> Option<int> {
    let body = unsigned_part(s);
    let v = if is_negative_text(s) {
        -digits_value(body)
    } else {
        digits_value(body)
    };
    if all_digits(body) && i32::MIN <= v <= i32::MAX {
        Some(v)
    } else {
        None
    }
}

proof fn lemma_digits_value_nonneg(s: Seq<char>)
    requires
        forall|i: int| 0 <= i < s.len() ==> is_digit(#[trigger] s[i]),
    ensures
        digits_value(s) >= 0,
    decreases s.len(),
{
    if s.len() > 0 {
        lemma_digits_value_nonneg(s.drop_last());
    }
}

/// Parses a decimal `i32` with an optional sign, as `str::parse::<i32>` does.
pub fn parse_i32(s: &Vec<char>) -> (r: Option<i32>)
    ensures
        match r {
            Some(v) => parse_i32_spec(s@) == Some(v as int),
            None => parse_i32_spec(s@) is None,
        },
{
    let n = s.len();
    let mut start: usize = 0;
    let mut negative = false;
    if n > 0 && (s[0] == '-' || s[0] == '+') {
        start = 1;
        negative = s[0] == '-';
    }
    let ghost body = unsigned_part(s@);
    assert(body == s@.subrange(start as int, n as int));
    if start >= n {
        return None;
    }
    // Values above this bound are out of range whatever the sign.
    let limit: u64 = 2147483648;
    let mut value: u64 = 0;
    let mut i: usize = start;
    while i < n
        invariant
            start <= i <= n,
            n == s.len(),
            body == s@.subrange(start as int, n as int),
            body == unsigned_part(s@),
            limit == 2147483648,
            value <= limit + 1,
            forall|j: int| start <= j < i ==> is_digit(#[trigger] s@[j]),
            value <= limit ==> value == digits_value(s@.subrange(start as int, i as int)),
            value > limit ==> digits_value(s@.subrange(start as int, i as int)) > limit,
        decreases n - i,
    {
        let c = s[i];
        if !('0' <= c && c <= '9') {
            assert(body[i - start] == c);
            assert(!is_digit(body[i - start]));
            return None;
        }
        let d = (c as u64) - ('0' as u64);
        let ghost prev = s@.subrange(start as int, i as int);
        let ghost next = s@.subrange(start as int, i + 1);
        assert(next.drop_last() == prev);
        assert forall|j: int| 0 <= j < prev.len() implies is_digit(#[trigger] prev[j]) by {
            assert(prev[j] == s@[start + j]);
        }
        proof {
            lemma_digits_value_nonneg(prev);
        }
        assert(d < 10 && d == digit_value(c));
        if value <= limit {
            assert(value * 10 <= 21474836480) by (nonlinear_arith)
                requires
                    value <= 2147483648,
            ;
            let next_value = value * 10 + d;
            if next_value > limit {
                value = limit + 1;
            } else {
                value = next_value;
            }
        }
        i += 1;
    }
    assert forall|j: int| 0 <= j < body.len() implies is_digit(#[trigger] body[j]) by {
        assert(body[j] == s@[start + j]);
    }
    assert(s@.subrange(start as int, n as int) == body);
    if negative {
        if value > limit {
            return None;
        }
        let v: i64 = -(value as i64);
        Some(v as i32)
    } else {
        if value >= limit {
            return None;
        }
        Some(value as i32)
    }
}

} // verus!
