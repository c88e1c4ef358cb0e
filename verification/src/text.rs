//! Texts: comparing them and reading numbers from them.

use vstd::prelude::*;
use vstd::string::*;

verus! {

/// Whether two string slices hold the same characters.
pub fn str_eq(a: &str, b: &str) -> (r: bool)
    ensures
        r == (a@ == b@),
{
    a.to_owned() == b.to_owned()
}

/// The characters of `s`, in order.
pub fn chars_of(s: &str) -> (v: Vec<char>)
    ensures
        v@ == s@,
{
    let n = s.unicode_len();
    let mut v: Vec<char> = Vec::new();
    let mut i: usize = 0;
    while i < n
        invariant
            n == s@.len(),
            i <= n,
            v@ == s@.take(i as int),
        decreases n - i,
    {
        v.push(s.get_char(i));
        i = i + 1;
        assert(v@ =~= s@.take(i as int));
    }
    assert(s@.take(n as int) =~= s@);
    v
}

/// Whether `c` is a decimal digit.
pub open spec fn is_digit(c: char) -> bool {
    '0' <= c && c <= '9'
}

/// The number that a decimal digit denotes.
pub open spec fn digit_value(c: char) -> int {
    c as int - '0' as int
}

fn digit_of(c: char) -> (r: Option<u8>)
    ensures
        r is Some <==> is_digit(c),
        r matches Some(d) ==> d as int == digit_value(c) && d <= 9,
{
    if '0' <= c && c <= '9' {
        Some(((c as u32) - ('0' as u32)) as u8)
    } else {
        None
    }
}

/// Every character of `s` is a decimal digit.
pub open spec fn all_digits(s: Seq<char>) -> bool {
    forall|i: int| 0 <= i < s.len() ==> is_digit(#[trigger] s[i])
}

/// The number that a run of decimal digits denotes, most significant first.
pub open spec fn digits_value(s: Seq<char>) -> nat
    decreases s.len(),
{
    if s.len() == 0 {
        0
    } else {
        digits_value(s.drop_last()) * 10 + digit_value(s.last()) as nat
    }
}

/// How many decimal digits `s` starts with.
pub open spec fn digit_run(s: Seq<char>) -> nat
    decreases s.len(),
{
    if s.len() > 0 && is_digit(s[0]) {
        1 + digit_run(s.drop_first())
    } else {
        0
    }
}

/// The largest magnitude a 32-bit signed integer can have.
pub open spec fn magnitude_limit() -> int {
    0x8000_0000
}

/// A non-empty run of digits whose value does not exceed `magnitude_limit`.
pub open spec fn magnitude_of(s: Seq<char>) -> Option<int> {
    if s.len() > 0 && all_digits(s) && digits_value(s) <= magnitude_limit() {
        Some(digits_value(s) as int)
    } else {
        None
    }
}

/// The 32-bit signed integer that `s` denotes in decimal: an optional `+` or
/// `-`, then at least one digit, and nothing else. `None` for every other
/// text and for a value outside the 32-bit range.
pub open spec fn int_of(s: Seq<char>) -> Option<int> {
    if s.len() > 0 && s[0] == '-' {
        match magnitude_of(s.drop_first()) {
            Some(m) => Some(-m),
            None => None,
        }
    } else if s.len() > 0 && s[0] == '+' {
        match magnitude_of(s.drop_first()) {
            Some(m) => if m < magnitude_limit() {
                Some(m)
            } else {
                None
            },
            None => None,
        }
    } else {
        match magnitude_of(s) {
            Some(m) => if m < magnitude_limit() {
                Some(m)
            } else {
                None
            },
            None => None,
        }
    }
}

/// The first digits of a run denote no more than the whole run.
pub proof fn lemma_digits_value_prefix(s: Seq<char>, k: int)
    requires
        0 <= k <= s.len(),
    ensures
        digits_value(s.take(k)) <= digits_value(s),
    decreases s.len() - k,
{
    if k == s.len() {
        assert(s.take(k) =~= s);
    } else {
        lemma_digits_value_prefix(s.drop_last(), k);
        assert(s.drop_last().take(k) =~= s.take(k));
    }
}

/// A text whose first `k` characters are digits, and whose next is none, starts
/// with `k` digits.
pub proof fn lemma_digit_run(s: Seq<char>, k: int)
    requires
        0 <= k <= s.len(),
        forall|i: int| 0 <= i < k ==> is_digit(#[trigger] s[i]),
        k == s.len() || !is_digit(s[k]),
    ensures
        digit_run(s) == k,
    decreases k,
{
    if k > 0 {
        let t = s.drop_first();
        assert forall|i: int| 0 <= i < k - 1 implies is_digit(#[trigger] t[i]) by {
            assert(t[i] == s[i + 1]);
        }
        lemma_digit_run(t, k - 1);
    }
}

/// Reads the digits `v[from..to]` as a number.
pub(crate) fn parse_magnitude(v: &Vec<char>, from: usize, to: usize) -> (r: Option<i64>)
    requires
        from <= to <= v.len(),
    ensures
        r is Some <==> magnitude_of(v@.subrange(from as int, to as int)) is Some,
        r matches Some(m) ==> magnitude_of(v@.subrange(from as int, to as int)) == Some(m as int),
{
    let ghost s = v@.subrange(from as int, to as int);
    if from == to {
        return None;
    }
    let mut acc: i64 = 0;
    let mut i: usize = from;
    while i < to
        invariant
            from <= i <= to <= v.len(),
            s == v@.subrange(from as int, to as int),
            0 <= acc <= magnitude_limit(),
            acc == digits_value(s.take(i - from)),
            forall|j: int| 0 <= j < i - from ==> is_digit(#[trigger] s[j]),
        decreases to - i,
    {
        let c = v[i];
        assert(c == s[i - from]);
        match digit_of(c) {
            None => {
                return None;
            },
            Some(d) => {
                let next: i64 = acc * 10 + d as i64;
                proof {
                    let t = s.take(i - from + 1);
                    assert(t.drop_last() =~= s.take(i - from));
                    assert(t.last() == c);
                    assert(digits_value(t) == next);
                    lemma_digits_value_prefix(s, i - from + 1);
                }
                if next > 0x8000_0000 {
                    return None;
                }
                acc = next;
            },
        }
        i = i + 1;
    }
    assert(s.take(to - from) =~= s);
    Some(acc)
}

/// Reads `v[from..to]` as a decimal 32-bit signed integer.
pub(crate) fn parse_int_range(v: &Vec<char>, from: usize, to: usize) -> (r: Option<i32>)
    requires
        from <= to <= v.len(),
    ensures
        r is Some <==> int_of(v@.subrange(from as int, to as int)) is Some,
        r matches Some(n) ==> int_of(v@.subrange(from as int, to as int)) == Some(n as int),
{
    let ghost s = v@.subrange(from as int, to as int);
    if from < to && v[from] == '-' {
        assert(s[0] == '-');
        assert(s.drop_first() =~= v@.subrange(from + 1, to as int));
        match parse_magnitude(v, from + 1, to) {
            Some(m) => Some((0 - m) as i32),
            None => None,
        }
    } else if from < to && v[from] == '+' {
        assert(s[0] == '+');
        assert(s.drop_first() =~= v@.subrange(from + 1, to as int));
        match parse_magnitude(v, from + 1, to) {
            Some(m) => if m < 0x8000_0000 {
                Some(m as i32)
            } else {
                None
            },
            None => None,
        }
    } else {
        assert(from < to ==> s[0] == v[from as int]);
        match parse_magnitude(v, from, to) {
            Some(m) => if m < 0x8000_0000 {
                Some(m as i32)
            } else {
                None
            },
            None => None,
        }
    }
}

/// Reads `s` as a decimal 32-bit signed integer.
pub fn parse_i32(s: &str) -> (r: Option<i32>)
    ensures
        r is Some <==> int_of(s@) is Some,
        r matches Some(n) ==> int_of(s@) == Some(n as int),
{
    let v = chars_of(s);
    assert(v@.subrange(0, v@.len() as int) =~= v@);
    parse_int_range(&v, 0, v.len())
}

/// The first position at or after `from` that holds no digit.
pub(crate) fn scan_digits(v: &Vec<char>, from: usize) -> (to: usize)
    requires
        from <= v.len(),
    ensures
        from <= to <= v.len(),
        to - from == digit_run(v@.skip(from as int)),
{
    let ghost s = v@.skip(from as int);
    let mut i: usize = from;
    while i < v.len() && '0' <= v[i] && v[i] <= '9'
        invariant
            from <= i <= v.len(),
            s == v@.skip(from as int),
            forall|j: int| 0 <= j < i - from ==> is_digit(#[trigger] s[j]),
        decreases v.len() - i,
    {
        i = i + 1;
    }
    proof {
        lemma_digit_run(s, i - from);
    }
    i
}

/// Whether `s` is `word`, in small or in capital letters, `capitals` being
/// `word` in capital letters.
pub open spec fn is_word(s: Seq<char>, word: Seq<char>, capitals: Seq<char>) -> bool {
    s.len() == word.len() && forall|i: int|
        0 <= i < s.len() ==> (#[trigger] s[i]) == word[i] || s[i] == capitals[i]
}

/// Whether `s` is the exponent of a number with a fraction: `e` or `E`, an
/// optional sign, and at least one digit.
pub open spec fn is_exponent(s: Seq<char>) -> bool {
    s.len() > 0 && (s[0] == 'e' || s[0] == 'E') && {
        let rest = s.skip(1);
        let digits = if rest.len() > 0 && (rest[0] == '+' || rest[0] == '-') {
            rest.skip(1)
        } else {
            rest
        };
        digits.len() > 0 && digit_run(digits) == digits.len()
    }
}

/// Whether `s` is a decimal number without a sign: digits, optionally a
/// point and more digits, with a digit on at least one side of the point,
/// and optionally an exponent.
pub open spec fn is_decimal(s: Seq<char>) -> bool {
    let whole = digit_run(s) as int;
    let rest = s.skip(whole);
    if rest.len() > 0 && rest[0] == '.' {
        let fraction = digit_run(rest.skip(1)) as int;
        let tail = rest.skip(1).skip(fraction);
        whole + fraction > 0 && (tail.len() == 0 || is_exponent(tail))
    } else {
        whole > 0 && (rest.len() == 0 || is_exponent(rest))
    }
}

/// Whether `s` is written as a number with a fraction: an optional sign,
/// and then a decimal number or one of the words `inf`, `infinity` and
/// `nan`.
pub open spec fn is_float_text(s: Seq<char>) -> bool {
    let body = if s.len() > 0 && (s[0] == '+' || s[0] == '-') {
        s.skip(1)
    } else {
        s
    };
    is_decimal(body) || is_word(body, "inf"@, "INF"@) || is_word(body, "infinity"@, "INFINITY"@)
        || is_word(body, "nan"@, "NAN"@)
}

fn word_at(v: &Vec<char>, from: usize, word: &str, capitals: &str) -> (r: bool)
    requires
        from <= v.len(),
        word@.len() == capitals@.len(),
    ensures
        r == is_word(v@.skip(from as int), word@, capitals@),
{
    let w = chars_of(word);
    let c = chars_of(capitals);
    if v.len() - from != w.len() {
        return false;
    }
    let ghost s = v@.skip(from as int);
    let mut i: usize = 0;
    while i < w.len()
        invariant
            i <= w.len(),
            from + w.len() == v.len(),
            w.len() == c.len(),
            w@ == word@,
            c@ == capitals@,
            s == v@.skip(from as int),
            forall|j: int| 0 <= j < i ==> (#[trigger] s[j]) == w@[j] || s[j] == c@[j],
        decreases w.len() - i,
    {
        assert(s[i as int] == v@[from + i]);
        if v[from + i] != w[i] && v[from + i] != c[i] {
            assert(s[i as int] != word@[i as int] && s[i as int] != capitals@[i as int]);
            return false;
        }
        i = i + 1;
    }
    true
}

fn exponent_at(v: &Vec<char>, from: usize) -> (r: bool)
    requires
        from <= v.len(),
    ensures
        r == is_exponent(v@.skip(from as int)),
{
    let ghost s = v@.skip(from as int);
    if from == v.len() || (v[from] != 'e' && v[from] != 'E') {
        return false;
    }
    let mut start = from + 1;
    assert(s.skip(1) =~= v@.skip(from + 1));
    if start < v.len() && (v[start] == '+' || v[start] == '-') {
        start = start + 1;
        assert(s.skip(1).skip(1) =~= v@.skip(start as int));
    }
    let end = scan_digits(v, start);
    start < v.len() && end == v.len()
}

fn decimal_at(v: &Vec<char>, from: usize) -> (r: bool)
    requires
        from <= v.len(),
    ensures
        r == is_decimal(v@.skip(from as int)),
{
    let ghost s = v@.skip(from as int);
    let whole_end = scan_digits(v, from);
    assert(s.skip(whole_end - from) =~= v@.skip(whole_end as int));
    if whole_end < v.len() && v[whole_end] == '.' {
        let fraction_end = scan_digits(v, whole_end + 1);
        proof {
            let rest = s.skip(whole_end - from);
            assert(rest.skip(1) =~= v@.skip(whole_end + 1));
            assert(rest.skip(1).skip(fraction_end - (whole_end + 1)) =~= v@.skip(fraction_end as int));
        }
        (whole_end - from) + (fraction_end - (whole_end + 1)) > 0 && (fraction_end == v.len()
            || exponent_at(v, fraction_end))
    } else {
        whole_end > from && (whole_end == v.len() || exponent_at(v, whole_end))
    }
}

/// Whether `s` is written as a number with a fraction.
pub fn is_float(s: &str) -> (r: bool)
    ensures
        r == is_float_text(s@),
{
    let v = chars_of(s);
    assert(v@.skip(0) =~= v@);
    let from: usize = if v.len() > 0 && (v[0] == '+' || v[0] == '-') {
        1
    } else {
        0
    };
    proof {
        reveal_strlit("inf");
        reveal_strlit("INF");
        reveal_strlit("infinity");
        reveal_strlit("INFINITY");
        reveal_strlit("nan");
        reveal_strlit("NAN");
    }
    decimal_at(&v, from) || word_at(&v, from, "inf", "INF") || word_at(&v, from, "infinity", "INFINITY")
        || word_at(&v, from, "nan", "NAN")
}

} // verus!
