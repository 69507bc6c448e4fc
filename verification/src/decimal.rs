//! Numbers as text: unsigned decimals, read and written, and the grammar of
//! a floating-point literal.

use crate::text::{lemma_prefix_len, lemma_prefix_len_bounds, prefix_len};
use vstd::prelude::*;

verus! {

/// `c` is one of `0` to `9`.
pub open spec fn is_digit(c: char) -> bool {
    0x30 <= c as u32 <= 0x39
}

/// The value of the digit `c`.
pub open spec fn digit_value(c: char) -> nat
    recommends
        is_digit(c),
{
    (c as u32 - 0x30) as nat
}

/// The digit whose value is `d`.
pub open spec fn digit_char(d: nat) -> char
    recommends
        d < 10,
{
    ((0x30 + d) as u8) as char
}

/// The predicate "is a digit".
pub open spec fn digits() -> spec_fn(char) -> bool {
    |c: char| is_digit(c)
}

/// Every character of `s` is a digit.
pub open spec fn all_digits(s: Seq<char>) -> bool {
    forall|i: int| 0 <= i < s.len() ==> is_digit(#[trigger] s[i])
}

/// The number that the digits of `s` write in base ten; 0 for no digits.
pub open spec fn decimal_value(s: Seq<char>) -> nat
    decreases s.len(),
{
    if s.len() == 0 {
        0
    } else {
        10 * decimal_value(s.drop_last()) + digit_value(s.last())
    }
}

/// What `s` reads as an unsigned decimal no greater than `max`: an optional
/// `+`, then one or more digits and nothing else.
pub open spec fn parse_unsigned(s: Seq<char>, max: nat) -> Option<nat> {
    let body = if s.len() > 0 && s[0] == '+' {
        s.skip(1)
    } else {
        s
    };
    if body.len() > 0 && all_digits(body) && decimal_value(body) <= max {
        Some(decimal_value(body))
    } else {
        None
    }
}

/// The shortest decimal text of `n`.
pub open spec fn decimal_text(n: nat) -> Seq<char>
    decreases n,
{
    if n < 10 {
        seq![digit_char(n)]
    } else {
        decimal_text(n / 10).push(digit_char(n % 10))
    }
}

/// A prefix of a digit string writes no greater a number than the whole.
pub proof fn lemma_decimal_value_prefix(s: Seq<char>, k: int)
    requires
        0 <= k <= s.len(),
    ensures
        decimal_value(s.take(k)) <= decimal_value(s),
    decreases s.len(),
{
    if k == s.len() {
        assert(s.take(k) == s);
    } else {
        assert(s.drop_last().take(k) == s.take(k));
        lemma_decimal_value_prefix(s.drop_last(), k);
    }
}

/// The decimal text of a number is made of digits and reads back as that
/// number.
pub proof fn lemma_decimal_text_value(n: nat)
    ensures
        decimal_text(n).len() > 0,
        all_digits(decimal_text(n)),
        decimal_value(decimal_text(n)) == n,
    decreases n,
{
    if n < 10 {
        let s = decimal_text(n);
        assert(s.drop_last().len() == 0);
        assert(decimal_value(s) == 10 * decimal_value(s.drop_last()) + digit_value(s.last()));
    } else {
        lemma_decimal_text_value(n / 10);
        let s = decimal_text(n);
        assert(s.drop_last() == decimal_text(n / 10));
        assert(s.last() == digit_char(n % 10));
    }
}

/// Writing a number and reading it back gives the number, under any bound
/// that admits it.
pub proof fn lemma_parse_decimal_text(n: nat, max: nat)
    requires
        n <= max,
    ensures
        parse_unsigned(decimal_text(n), max) == Some(n),
{
    lemma_decimal_text_value(n);
    let s = decimal_text(n);
    assert(is_digit(s[0]));
}

/// Whether `c` is a digit.
pub fn char_is_digit(c: char) -> (r: bool)
    ensures
        r == is_digit(c),
{
    let n: u32 = c as u32;
    0x30 <= n && n <= 0x39
}

/// The position at or after `from` of the first character of `v` that is no
/// digit, or the length of `v`.
pub fn scan_digits(v: &Vec<char>, from: usize) -> (k: usize)
    requires
        from <= v.len(),
    ensures
        from <= k <= v.len(),
        k - from == prefix_len(v@.skip(from as int), digits()),
        k == v.len() <==> all_digits(v@.skip(from as int)),
{
    let mut k: usize = from;
    while k < v.len() && char_is_digit(v[k])
        invariant
            from <= k <= v.len(),
            forall|j: int| from <= j < k ==> is_digit(v@[j]),
        decreases v.len() - k,
    {
        k += 1;
    }
    proof {
        let t = v@.skip(from as int);
        assert forall|j: int| 0 <= j < k - from implies digits()(#[trigger] t[j]) by {
            assert(t[j] == v@[j + from]);
        }
        lemma_prefix_len(t, digits(), k - from);
        if k < v.len() {
            assert(!is_digit(t[k - from]));
        }
    }
    k
}

/// Reads `v` as an unsigned decimal no greater than `max`.
pub fn parse_bounded(v: &Vec<char>, max: u64) -> (r: Option<u64>)
    ensures
        match r {
            Some(n) => parse_unsigned(v@, max as nat) == Some(n as nat),
            None => parse_unsigned(v@, max as nat) is None,
        },
{
    let start: usize = if v.len() > 0 && v[0] == '+' {
        1
    } else {
        0
    };
    if start == v.len() {
        return None;
    }
    let ghost body = v@.skip(start as int);
    assert(v@.skip(0) == v@);
    let mut val: u64 = 0;
    let mut i: usize = start;
    assert(body.take(0).len() == 0);
    while i < v.len()
        invariant
            start <= i <= v.len(),
            body == v@.skip(start as int),
            v@.skip(0) == v@,
            body.len() > 0,
            start == (if v@.len() > 0 && v@[0] == '+' { 1int } else { 0int }),
            forall|j: int| 0 <= j < i - start ==> is_digit(#[trigger] body[j]),
            val == decimal_value(body.take(i - start)),
            val <= max,
        decreases v.len() - i,
    {
        let c = v[i];
        assert(body[i - start] == c);
        if !char_is_digit(c) {
            return None;
        }
        let d: u64 = (c as u32 - 0x30) as u64;
        proof {
            let next = body.take(i - start + 1);
            assert(next.drop_last() == body.take(i - start));
            assert(next.last() == c);
            assert(digit_value(c) == d);
            assert(decimal_value(next) == 10 * val + d);
            lemma_decimal_value_prefix(body, i - start + 1);
        }
        if d > max || val > (max - d) / 10 {
            return None;
        }
        val = val * 10 + d;
        i += 1;
    }
    assert(body.take(v.len() - start) == body);
    Some(val)
}

/// Reads `v` as a `u64`.
pub fn parse_u64(v: &Vec<char>) -> (r: Option<u64>)
    ensures
        match r {
            Some(n) => parse_unsigned(v@, u64::MAX as nat) == Some(n as nat),
            None => parse_unsigned(v@, u64::MAX as nat) is None,
        },
{
    parse_bounded(v, u64::MAX)
}

/// Reads `v` as a `u32`.
pub fn parse_u32(v: &Vec<char>) -> (r: Option<u32>)
    ensures
        match r {
            Some(n) => parse_unsigned(v@, u32::MAX as nat) == Some(n as nat),
            None => parse_unsigned(v@, u32::MAX as nat) is None,
        },
{
    match parse_bounded(v, 0xffff_ffff) {
        Some(n) => Some(n as u32),
        None => None,
    }
}

/// Appends the decimal text of `n` to `out`.
pub fn push_decimal(out: &mut Vec<char>, n: u64)
    ensures
        final(out)@ == old(out)@ + decimal_text(n as nat),
    decreases n,
{
    if n >= 10 {
        push_decimal(out, n / 10);
    }
    let d: u8 = (n % 10) as u8;
    out.push((0x30 + d) as char);
    proof {
        if n >= 10 {
            assert(old(out)@ + decimal_text(n as nat) == (old(out)@ + decimal_text(
                (n / 10) as nat,
            )).push(digit_char((n % 10) as nat)));
        } else {
            assert(old(out)@ + decimal_text(n as nat) == old(out)@.push(digit_char(n as nat)));
        }
    }
}

/// `c` is `+` or `-`.
pub open spec fn is_sign(c: char) -> bool {
    c == '+' || c == '-'
}

/// `s` spells the upper-case word `word`, each letter in either case.
pub open spec fn spells(s: Seq<char>, word: Seq<char>) -> bool {
    &&& s.len() == word.len()
    &&& forall|i: int|
        0 <= i < s.len() ==> (#[trigger] s[i] == word[i] || s[i] as u32 == word[i] as u32 + 0x20)
}

/// `s` names an infinity or a not-a-number.
pub open spec fn is_special_float(s: Seq<char>) -> bool {
    spells(s, "INF"@) || spells(s, "NAN"@) || spells(s, "INFINITY"@)
}

/// `s` is an exponent: `e` or `E`, an optional sign, one or more digits.
pub open spec fn is_exponent(s: Seq<char>) -> bool {
    &&& s.len() >= 2
    &&& (s[0] == 'e' || s[0] == 'E')
    &&& {
        let t = if is_sign(s[1]) {
            s.skip(2)
        } else {
            s.skip(1)
        };
        t.len() > 0 && all_digits(t)
    }
}

/// `s` is an unsigned number: digits with at most one point among them, at
/// least one digit in all, then an optional exponent.
pub open spec fn is_number(s: Seq<char>) -> bool {
    let a = prefix_len(s, digits()) as int;
    let dot = a < s.len() && s[a] == '.';
    let b = if dot {
        prefix_len(s.skip(a + 1), digits()) as int
    } else {
        0
    };
    let end = if dot {
        a + 1 + b
    } else {
        a
    };
    a + b > 0 && (end == s.len() || is_exponent(s.skip(end)))
}

/// `s` is a floating-point literal as `f64::from_str` accepts it: an optional
/// sign, then a number or the name of an infinity or of a not-a-number.
pub open spec fn is_float_text(s: Seq<char>) -> bool {
    let body = if s.len() > 0 && is_sign(s[0]) {
        s.skip(1)
    } else {
        s
    };
    is_number(body) || is_special_float(body)
}

/// A character that may stand in a floating-point literal: a digit, a sign,
/// a point or an ASCII letter.
pub open spec fn is_float_char(c: char) -> bool {
    is_digit(c) || is_sign(c) || c == '.' || 0x41 <= c as u32 <= 0x5a || 0x61 <= c as u32 <= 0x7a
}

proof fn lemma_spelled_chars(s: Seq<char>)
    requires
        is_special_float(s),
    ensures
        forall|i: int| 0 <= i < s.len() ==> is_float_char(#[trigger] s[i]),
{
    reveal_strlit("INF");
    reveal_strlit("NAN");
    reveal_strlit("INFINITY");
    assert forall|i: int| 0 <= i < s.len() implies is_float_char(#[trigger] s[i]) by {
        if spells(s, "INF"@) {
            let w = "INF"@;
            assert(0x41 <= w[i] as u32 <= 0x5a);
        } else if spells(s, "NAN"@) {
            let w = "NAN"@;
            assert(0x41 <= w[i] as u32 <= 0x5a);
        } else {
            let w = "INFINITY"@;
            assert(0x41 <= w[i] as u32 <= 0x5a);
        }
    }
}

proof fn lemma_number_chars(s: Seq<char>)
    requires
        is_number(s),
    ensures
        forall|i: int| 0 <= i < s.len() ==> is_float_char(#[trigger] s[i]),
{
    let a = prefix_len(s, digits()) as int;
    lemma_prefix_len_bounds(s, digits());
    let dot = a < s.len() && s[a] == '.';
    let frac = s.skip(a + 1);
    let b = if dot {
        prefix_len(frac, digits()) as int
    } else {
        0
    };
    if dot {
        lemma_prefix_len_bounds(frac, digits());
    }
    let end = if dot {
        a + 1 + b
    } else {
        a
    };
    let e = s.skip(end);
    assert forall|i: int| 0 <= i < s.len() implies is_float_char(#[trigger] s[i]) by {
        if i < a {
            assert(digits()(s[i]));
        } else if dot && i == a {
        } else if dot && i < end {
            assert(frac[i - a - 1] == s[i]);
            assert(digits()(frac[i - a - 1]));
        } else {
            assert(is_exponent(e));
            assert(e[i - end] == s[i]);
            let off = if is_sign(e[1]) {
                2int
            } else {
                1int
            };
            let t = e.skip(off);
            if i - end >= off {
                assert(t[i - end - off] == e[i - end]);
                assert(is_digit(t[i - end - off]));
            }
        }
    }
}

/// A floating-point literal is made of digits, signs, points and ASCII
/// letters.
pub proof fn lemma_float_text_chars(s: Seq<char>)
    requires
        is_float_text(s),
    ensures
        forall|i: int| 0 <= i < s.len() ==> is_float_char(#[trigger] s[i]),
{
    let signed = s.len() > 0 && is_sign(s[0]);
    let body = if signed {
        s.skip(1)
    } else {
        s
    };
    if is_number(body) {
        lemma_number_chars(body);
    } else {
        lemma_spelled_chars(body);
    }
    assert forall|i: int| 0 <= i < s.len() implies is_float_char(#[trigger] s[i]) by {
        if signed && i > 0 {
            assert(body[i - 1] == s[i]);
        }
    }
}

/// Whether the rest of `v` from `from` spells `word`.
fn spells_from(v: &Vec<char>, from: usize, word: &str) -> (r: bool)
    requires
        from <= v.len(),
    ensures
        r == spells(v@.skip(from as int), word@),
{
    let w = crate::text::chars_of(word);
    if v.len() - from != w.len() {
        return false;
    }
    let ghost t = v@.skip(from as int);
    let mut j: usize = 0;
    while j < w.len()
        invariant
            j <= w.len(),
            from + w.len() == v.len(),
            t == v@.skip(from as int),
            w@ == word@,
            forall|i: int|
                0 <= i < j ==> (#[trigger] t[i] == w@[i] || t[i] as u32 == w@[i] as u32 + 0x20),
        decreases w.len() - j,
    {
        let c = v[from + j];
        let u = w[j];
        assert(t[j as int] == c);
        if !(c == u || (c as u32 >= 0x20 && c as u32 - 0x20 == u as u32)) {
            return false;
        }
        j += 1;
    }
    true
}

/// Whether the rest of `v` from `from` is an exponent.
fn is_exponent_from(v: &Vec<char>, from: usize) -> (r: bool)
    requires
        from <= v.len(),
    ensures
        r == is_exponent(v@.skip(from as int)),
{
    let n = v.len();
    if n - from < 2 {
        return false;
    }
    let ghost s = v@.skip(from as int);
    assert(s[0] == v@[from as int]);
    assert(s[1] == v@[from + 1]);
    if v[from] != 'e' && v[from] != 'E' {
        return false;
    }
    let p: usize = if v[from + 1] == '+' || v[from + 1] == '-' {
        from + 2
    } else {
        from + 1
    };
    assert(s.skip(p - from) == v@.skip(p as int));
    if p >= n {
        return false;
    }
    scan_digits(v, p) == n
}

/// Whether the rest of `v` from `from` is an unsigned number.
fn is_number_from(v: &Vec<char>, from: usize) -> (r: bool)
    requires
        from <= v.len(),
    ensures
        r == is_number(v@.skip(from as int)),
{
    let n = v.len();
    let ghost s = v@.skip(from as int);
    let a = scan_digits(v, from);
    if a < n {
        assert(s[a - from] == v@[a as int]);
    }
    let dot = a < n && v[a] == '.';
    let end = if dot {
        assert(s.skip(a - from + 1) == v@.skip(a + 1));
        scan_digits(v, a + 1)
    } else {
        a
    };
    let found = if dot {
        end - 1 - from
    } else {
        a - from
    };
    assert(s.skip(end - from) == v@.skip(end as int));
    if found == 0 {
        return false;
    }
    if end == n {
        return true;
    }
    is_exponent_from(v, end)
}

/// Whether `v` is a floating-point literal.
pub fn is_float(v: &Vec<char>) -> (r: bool)
    ensures
        r == is_float_text(v@),
{
    let start: usize = if v.len() > 0 && (v[0] == '+' || v[0] == '-') {
        1
    } else {
        0
    };
    assert(v@.skip(0) == v@);
    if is_number_from(v, start) {
        return true;
    }
    spells_from(v, start, "INF") || spells_from(v, start, "NAN") || spells_from(
        v,
        start,
        "INFINITY",
    )
}

} // verus!
