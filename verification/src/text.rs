//! Text as sequences of characters: reading a `&str` into a vector, and the
//! small searches and splits the protocol parsers are built from.

use vstd::prelude::*;

verus! {

/// `String::push` appends one character and leaves the rest of the string as
/// it was.
pub assume_specification[ String::push ](s: &mut String, c: char)
    ensures
        final(s)@ == old(s)@.push(c),
;

/// The number of leading elements of `s` that satisfy `p`.
pub open spec fn prefix_len(s: Seq<char>, p: spec_fn(char) -> bool) -> nat
    decreases s.len(),
{
    if s.len() > 0 && p(s[0]) {
        1 + prefix_len(s.drop_first(), p)
    } else {
        0
    }
}

/// `prefix_len` is the one position `k` such that everything before `k`
/// satisfies `p` and the element at `k`, if there is one, does not.
pub proof fn lemma_prefix_len(s: Seq<char>, p: spec_fn(char) -> bool, k: int)
    requires
        0 <= k <= s.len(),
        forall|j: int| 0 <= j < k ==> p(#[trigger] s[j]),
        k == s.len() || !p(s[k]),
    ensures
        prefix_len(s, p) == k,
    decreases s.len(),
{
    if k > 0 {
        let t = s.drop_first();
        assert forall|j: int| 0 <= j < k - 1 implies p(#[trigger] t[j]) by {
            assert(t[j] == s[j + 1]);
        }
        lemma_prefix_len(t, p, k - 1);
    }
}

/// Every element before `prefix_len` satisfies `p`; the one at it does not.
pub proof fn lemma_prefix_len_bounds(s: Seq<char>, p: spec_fn(char) -> bool)
    ensures
        prefix_len(s, p) <= s.len(),
        forall|j: int| 0 <= j < prefix_len(s, p) ==> p(#[trigger] s[j]),
        prefix_len(s, p) < s.len() ==> !p(s[prefix_len(s, p) as int]),
    decreases s.len(),
{
    if s.len() > 0 && p(s[0]) {
        let t = s.drop_first();
        lemma_prefix_len_bounds(t, p);
        assert forall|j: int| 0 <= j < prefix_len(s, p) implies p(#[trigger] s[j]) by {
            if j > 0 {
                assert(s[j] == t[j - 1]);
            }
        }
    }
}

/// The predicate "is not `c`".
pub open spec fn other_than(c: char) -> spec_fn(char) -> bool {
    |x: char| x != c
}

/// The position of the first `c` in `s`, or the length of `s` if there is none.
pub open spec fn first_index(s: Seq<char>, c: char) -> int {
    prefix_len(s, other_than(c)) as int
}

/// The pieces of `s` between occurrences of `sep`, empty pieces included; a
/// text without `sep` is its own single piece.
pub open spec fn split_on(s: Seq<char>, sep: char) -> Seq<Seq<char>>
    decreases s.len(),
{
    let k = first_index(s, sep);
    if 0 <= k < s.len() {
        seq![s.take(k)] + split_on(s.skip(k + 1), sep)
    } else {
        seq![s]
    }
}

/// `s` with every occurrence of `c` taken out.
pub open spec fn without(s: Seq<char>, c: char) -> Seq<char>
    decreases s.len(),
{
    if s.len() == 0 {
        s
    } else if s.last() == c {
        without(s.drop_last(), c)
    } else {
        without(s.drop_last(), c).push(s.last())
    }
}

/// No character of `s` is `c`.
pub open spec fn free_of(s: Seq<char>, c: char) -> bool {
    forall|i: int| 0 <= i < s.len() ==> s[i] != c
}

/// A text without the separator is its own single piece.
pub proof fn lemma_split_whole(s: Seq<char>, sep: char)
    requires
        free_of(s, sep),
    ensures
        split_on(s, sep) == seq![s],
{
    lemma_prefix_len(s, other_than(sep), s.len() as int);
}

/// A text that begins with `head`, free of the separator, and goes on with
/// the separator and `rest`, splits into `head` and the pieces of `rest`.
pub proof fn lemma_split_first(head: Seq<char>, rest: Seq<char>, sep: char)
    requires
        free_of(head, sep),
    ensures
        split_on(head + seq![sep] + rest, sep) == seq![head] + split_on(rest, sep),
{
    let s = head + seq![sep] + rest;
    let k = head.len() as int;
    assert(s[k] == sep);
    assert forall|j: int| 0 <= j < k implies other_than(sep)(#[trigger] s[j]) by {
        assert(s[j] == head[j]);
    }
    lemma_prefix_len(s, other_than(sep), k);
    assert(s.take(k) == head);
    assert(s.skip(k + 1) == rest);
}

/// Taking out a character that does not occur changes nothing.
pub proof fn lemma_without_absent(s: Seq<char>, c: char)
    requires
        free_of(s, c),
    ensures
        without(s, c) == s,
    decreases s.len(),
{
    if s.len() > 0 {
        let t = s.drop_last();
        assert forall|i: int| 0 <= i < t.len() implies t[i] != c by {
            assert(t[i] == s[i]);
        }
        lemma_without_absent(t, c);
        assert(t.push(s.last()) == s);
    }
}

/// White space as `char::is_whitespace` has it.
pub open spec fn is_space(c: char) -> bool {
    let n = c as u32;
    ||| 0x09 <= n <= 0x0d
    ||| n == 0x20
    ||| n == 0x85
    ||| n == 0xa0
    ||| n == 0x1680
    ||| 0x2000 <= n <= 0x200a
    ||| n == 0x2028
    ||| n == 0x2029
    ||| n == 0x202f
    ||| n == 0x205f
    ||| n == 0x3000
}

/// The predicate "is white space".
pub open spec fn space() -> spec_fn(char) -> bool {
    |x: char| is_space(x)
}

/// The predicate "is not white space".
pub open spec fn non_space() -> spec_fn(char) -> bool {
    |x: char| !is_space(x)
}

/// The maximal runs of characters of `s` that are not white space, in order.
pub open spec fn tokens(s: Seq<char>) -> Seq<Seq<char>>
    decreases s.len(),
{
    let a = prefix_len(s, space()) as int;
    let w = prefix_len(s.skip(a), non_space()) as int;
    if 0 <= a && 0 < w && a + w <= s.len() {
        seq![s.subrange(a, a + w)] + tokens(s.skip(a + w))
    } else {
        seq![]
    }
}

/// Every token holds at least one character and no white space.
pub proof fn lemma_tokens_non_space(s: Seq<char>)
    ensures
        forall|i: int| 0 <= i < tokens(s).len() ==> (#[trigger] tokens(s)[i]).len() > 0,
        forall|i: int, j: int|
            0 <= i < tokens(s).len() && 0 <= j < tokens(s)[i].len() ==> !is_space(
                #[trigger] tokens(s)[i][j],
            ),
    decreases s.len(),
{
    let a = prefix_len(s, space()) as int;
    let t = s.skip(a);
    let w = prefix_len(t, non_space()) as int;
    if 0 <= a && 0 < w && a + w <= s.len() {
        lemma_prefix_len_bounds(t, non_space());
        lemma_tokens_non_space(s.skip(a + w));
        let rest = tokens(s.skip(a + w));
        let first = s.subrange(a, a + w);
        assert(tokens(s) == seq![first] + rest);
        assert forall|i: int, j: int|
            0 <= i < tokens(s).len() && 0 <= j < tokens(s)[i].len() implies !is_space(
            #[trigger] tokens(s)[i][j],
        ) by {
            if i == 0 {
                assert(first[j] == t[j]);
                assert(non_space()(t[j]));
            } else {
                assert(tokens(s)[i] == rest[i - 1]);
            }
        }
        assert forall|i: int| 0 <= i < tokens(s).len() implies (#[trigger] tokens(s)[i]).len()
            > 0 by {
            if i > 0 {
                assert(tokens(s)[i] == rest[i - 1]);
            }
        }
    }
}

/// A text that begins with `a` characters of white space and then `w` other
/// ones, `w` not 0, followed by white space or nothing, has the `w`
/// characters as its first token, and then the tokens of what follows them.
pub proof fn lemma_tokens_first(s: Seq<char>, a: int, w: int)
    requires
        0 <= a,
        0 < w,
        a + w <= s.len(),
        forall|j: int| 0 <= j < a ==> is_space(#[trigger] s[j]),
        forall|j: int| a <= j < a + w ==> !is_space(#[trigger] s[j]),
        a + w == s.len() || is_space(s[a + w]),
    ensures
        tokens(s) == seq![s.subrange(a, a + w)] + tokens(s.skip(a + w)),
{
    assert forall|j: int| 0 <= j < a implies space()(#[trigger] s[j]) by {
        assert(is_space(s[j]));
    }
    assert(!space()(s[a]));
    lemma_prefix_len(s, space(), a);
    let t = s.skip(a);
    assert forall|j: int| 0 <= j < w implies non_space()(#[trigger] t[j]) by {
        assert(t[j] == s[j + a]);
        assert(!is_space(s[j + a]));
    }
    if a + w < s.len() {
        assert(t[w] == s[a + w]);
    }
    lemma_prefix_len(t, non_space(), w);
}

/// A text of white space alone has no tokens.
pub proof fn lemma_tokens_none(s: Seq<char>)
    requires
        forall|j: int| 0 <= j < s.len() ==> is_space(#[trigger] s[j]),
    ensures
        tokens(s) == Seq::<Seq<char>>::empty(),
{
    assert forall|j: int| 0 <= j < s.len() implies space()(#[trigger] s[j]) by {
        assert(is_space(s[j]));
    }
    lemma_prefix_len(s, space(), s.len() as int);
    assert(s.skip(s.len() as int).len() == 0);
}

/// A text of at least one character and no white space.
pub open spec fn one_word(s: Seq<char>) -> bool {
    s.len() > 0 && forall|j: int| 0 <= j < s.len() ==> !is_space(#[trigger] s[j])
}

/// A word, followed by nothing or by white space and more, is the first
/// token of the whole.
pub proof fn lemma_tokens_after_word(word: Seq<char>, rest: Seq<char>)
    requires
        one_word(word),
        rest.len() == 0 || is_space(rest[0]),
    ensures
        tokens(word + rest) == seq![word] + tokens(rest),
{
    let s = word + rest;
    let w = word.len() as int;
    assert forall|j: int| 0 <= j < w implies !is_space(#[trigger] s[j]) by {
        assert(s[j] == word[j]);
    }
    if rest.len() > 0 {
        assert(s[w] == rest[0]);
    }
    lemma_tokens_first(s, 0, w);
    assert(s.subrange(0, w) == word);
    assert(s.skip(w) == rest);
}

/// White space in front of a text changes none of its tokens.
pub proof fn lemma_tokens_after_space(c: char, rest: Seq<char>)
    requires
        is_space(c),
    ensures
        tokens(seq![c] + rest) == tokens(rest),
{
    let s = seq![c] + rest;
    let a = prefix_len(rest, space()) as int;
    let t = rest.skip(a);
    let w = prefix_len(t, non_space()) as int;
    lemma_prefix_len_bounds(rest, space());
    lemma_prefix_len_bounds(t, non_space());
    assert forall|j: int| 0 <= j < a + 1 implies is_space(#[trigger] s[j]) by {
        if j > 0 {
            assert(s[j] == rest[j - 1]);
            assert(space()(rest[j - 1]));
        }
    }
    assert(s.skip(a + 1) == t);
    if w > 0 {
        assert forall|j: int| 0 <= j < a implies is_space(#[trigger] rest[j]) by {
            assert(space()(rest[j]));
        }
        assert forall|j: int| a <= j < a + w implies !is_space(#[trigger] rest[j]) by {
            assert(rest[j] == t[j - a]);
            assert(non_space()(t[j - a]));
        }
        assert forall|j: int| a + 1 <= j < a + 1 + w implies !is_space(#[trigger] s[j]) by {
            assert(s[j] == rest[j - 1]);
        }
        if a + w < rest.len() {
            assert(rest[a + w] == t[w]);
            assert(!non_space()(t[w]));
            assert(s[a + 1 + w] == rest[a + w]);
        }
        lemma_tokens_first(rest, a, w);
        lemma_tokens_first(s, a + 1, w);
        assert(s.subrange(a + 1, a + 1 + w) == rest.subrange(a, a + w));
        assert(s.skip(a + 1 + w) == rest.skip(a + w));
    } else {
        assert forall|j: int| 0 <= j < a + 1 implies space()(#[trigger] s[j]) by {
            assert(is_space(s[j]));
        }
        if a < rest.len() {
            assert(s[a + 1] == rest[a]);
            assert(!space()(rest[a]));
        }
        lemma_prefix_len(s, space(), a + 1);
    }
}

/// The pieces of a text that is free of `c` are free of `c`.
pub proof fn lemma_split_free(s: Seq<char>, sep: char, c: char)
    requires
        free_of(s, c),
    ensures
        forall|i: int|
            0 <= i < split_on(s, sep).len() ==> free_of(#[trigger] split_on(s, sep)[i], c),
    decreases s.len(),
{
    let k = first_index(s, sep);
    if 0 <= k < s.len() {
        let tail = s.skip(k + 1);
        assert forall|j: int| 0 <= j < tail.len() implies tail[j] != c by {
            assert(tail[j] == s[j + k + 1]);
        }
        lemma_split_free(tail, sep, c);
        let rest = split_on(tail, sep);
        assert(split_on(s, sep) == seq![s.take(k)] + rest);
        assert forall|i: int| 0 <= i < split_on(s, sep).len() implies free_of(
            #[trigger] split_on(s, sep)[i],
            c,
        ) by {
            if i == 0 {
                assert forall|j: int| 0 <= j < s.take(k).len() implies s.take(k)[j] != c by {
                    assert(s.take(k)[j] == s[j]);
                }
            } else {
                assert(split_on(s, sep)[i] == rest[i - 1]);
            }
        }
    }
}

/// `pat` stands in `s` at position `i`.
pub open spec fn occurs_at(s: Seq<char>, pat: Seq<char>, i: int) -> bool {
    0 <= i && i + pat.len() <= s.len() && s.subrange(i, i + pat.len()) == pat
}

/// `pat` stands somewhere in `s`.
pub open spec fn contains(s: Seq<char>, pat: Seq<char>) -> bool {
    exists|i: int| occurs_at(s, pat, i)
}

/// `s` begins with `pat`.
pub open spec fn starts_with(s: Seq<char>, pat: Seq<char>) -> bool {
    occurs_at(s, pat, 0)
}

/// The views of a vector of texts.
pub open spec fn pieces(v: Seq<Vec<char>>) -> Seq<Seq<char>> {
    v.map_values(|p: Vec<char>| p@)
}

/// The texts of `parts` joined with `sep` between neighbours.
pub open spec fn join_with(parts: Seq<Seq<char>>, sep: char) -> Seq<char>
    decreases parts.len(),
{
    if parts.len() == 0 {
        seq![]
    } else if parts.len() == 1 {
        parts[0]
    } else {
        join_with(parts.drop_last(), sep).push(sep) + parts.last()
    }
}

/// The characters of `s`, in order.
#[verifier::loop_isolation(false)]
pub fn chars_of(s: &str) -> (out: Vec<char>)
    ensures
        out@ == s@,
{
    let mut out: Vec<char> = Vec::new();
    for c in it: s.chars()
        invariant
            out@ == s@.take(it.index@),
    {
        out.push(c);
    }
    out
}

/// The string made of the characters of `v`.
pub fn string_of(v: &Vec<char>) -> (out: String)
    ensures
        out@ == v@,
{
    let mut out = String::new();
    let mut i: usize = 0;
    while i < v.len()
        invariant
            i <= v.len(),
            out@ == v@.take(i as int),
        decreases v.len() - i,
    {
        out.push(v[i]);
        assert(v@.take(i + 1) == v@.take(i as int).push(v@[i as int]));
        i += 1;
    }
    assert(v@.take(v.len() as int) == v@);
    out
}

/// Whether `c` is white space.
pub fn char_is_space(c: char) -> (r: bool)
    ensures
        r == is_space(c),
{
    let n: u32 = c as u32;
    (0x09 <= n && n <= 0x0d) || n == 0x20 || n == 0x85 || n == 0xa0 || n == 0x1680 || (0x2000 <= n
        && n <= 0x200a) || n == 0x2028 || n == 0x2029 || n == 0x202f || n == 0x205f || n == 0x3000
}

/// The position of the first `c` in `v` at or after `from`, or the length of
/// `v` if there is none.
pub fn find_from(v: &Vec<char>, from: usize, c: char) -> (k: usize)
    requires
        from <= v.len(),
    ensures
        from <= k <= v.len(),
        k - from == first_index(v@.skip(from as int), c),
{
    let mut k: usize = from;
    while k < v.len() && v[k] != c
        invariant
            from <= k <= v.len(),
            forall|j: int| from <= j < k ==> v@[j] != c,
        decreases v.len() - k,
    {
        k += 1;
    }
    proof {
        let t = v@.skip(from as int);
        assert forall|j: int| 0 <= j < k - from implies other_than(c)(#[trigger] t[j]) by {
            assert(t[j] == v@[j + from]);
        }
        lemma_prefix_len(t, other_than(c), k - from);
    }
    k
}

/// A copy of the characters of `v` from `from` up to `to`.
pub fn slice_of(v: &Vec<char>, from: usize, to: usize) -> (out: Vec<char>)
    requires
        from <= to <= v.len(),
    ensures
        out@ == v@.subrange(from as int, to as int),
{
    let mut out: Vec<char> = Vec::new();
    let mut i: usize = from;
    while i < to
        invariant
            from <= i <= to <= v.len(),
            out@ == v@.subrange(from as int, i as int),
        decreases to - i,
    {
        out.push(v[i]);
        assert(v@.subrange(from as int, i + 1) == v@.subrange(from as int, i as int).push(
            v@[i as int],
        ));
        i += 1;
    }
    out
}

/// The pieces of `v` between occurrences of `sep`, empty pieces included.
pub fn split(v: &Vec<char>, sep: char) -> (out: Vec<Vec<char>>)
    ensures
        pieces(out@) == split_on(v@, sep),
{
    let mut out: Vec<Vec<char>> = Vec::new();
    let mut start: usize = 0;
    assert(v@.skip(0) == v@);
    assert(pieces(out@) + split_on(v@, sep) == split_on(v@, sep));
    loop
        invariant_except_break
            start <= v.len(),
            split_on(v@, sep) == pieces(out@) + split_on(v@.skip(start as int), sep),
        ensures
            pieces(out@) == split_on(v@, sep),
        decreases v.len() - start,
    {
        let k = find_from(v, start, sep);
        let piece = slice_of(v, start, k);
        let ghost before = out@;
        let ghost rest = v@.skip(start as int);
        out.push(piece);
        proof {
            assert(rest.take(k - start) == v@.subrange(start as int, k as int));
            assert(pieces(out@) == pieces(before).push(piece@));
            if k < v.len() {
                assert(rest.skip(k - start + 1) == v@.skip(k + 1));
                assert(split_on(rest, sep) == seq![piece@] + split_on(v@.skip(k + 1), sep));
                assert(pieces(before) + (seq![piece@] + split_on(v@.skip(k + 1), sep))
                    == pieces(out@) + split_on(v@.skip(k + 1), sep));
            } else {
                assert(rest.take(k - start) == rest);
                assert(split_on(rest, sep) == seq![piece@]);
                assert(pieces(before) + seq![piece@] == pieces(out@));
            }
        }
        if k >= v.len() {
            break;
        }
        start = k + 1;
    }
    out
}

/// `v` with every occurrence of `c` taken out.
pub fn remove_char(v: &Vec<char>, c: char) -> (out: Vec<char>)
    ensures
        out@ == without(v@, c),
{
    let mut out: Vec<char> = Vec::new();
    let mut i: usize = 0;
    while i < v.len()
        invariant
            i <= v.len(),
            out@ == without(v@.take(i as int), c),
        decreases v.len() - i,
    {
        assert(v@.take(i + 1).drop_last() == v@.take(i as int));
        if v[i] != c {
            out.push(v[i]);
        }
        i += 1;
    }
    assert(v@.take(v.len() as int) == v@);
    out
}

/// The position at or after `from` of the first character of `v` that is
/// white space (`spaces` false) or is not (`spaces` true).
fn scan(v: &Vec<char>, from: usize, spaces: bool) -> (k: usize)
    requires
        from <= v.len(),
    ensures
        from <= k <= v.len(),
        k - from == prefix_len(v@.skip(from as int), if spaces { space() } else { non_space() }),
{
    let mut k: usize = from;
    while k < v.len() && char_is_space(v[k]) == spaces
        invariant
            from <= k <= v.len(),
            forall|j: int| from <= j < k ==> is_space(v@[j]) == spaces,
        decreases v.len() - k,
    {
        k += 1;
    }
    proof {
        let t = v@.skip(from as int);
        let p = if spaces { space() } else { non_space() };
        assert forall|j: int| 0 <= j < k - from implies p(#[trigger] t[j]) by {
            assert(t[j] == v@[j + from]);
        }
        lemma_prefix_len(t, p, k - from);
    }
    k
}

/// The maximal runs of characters of `v` that are not white space, in order.
pub fn split_tokens(v: &Vec<char>) -> (out: Vec<Vec<char>>)
    ensures
        pieces(out@) == tokens(v@),
{
    let mut out: Vec<Vec<char>> = Vec::new();
    let mut start: usize = 0;
    assert(v@.skip(0) == v@);
    assert(pieces(out@) + tokens(v@) == tokens(v@));
    loop
        invariant
            start <= v.len(),
            tokens(v@) == pieces(out@) + tokens(v@.skip(start as int)),
        ensures
            pieces(out@) == tokens(v@),
        decreases v.len() - start,
    {
        let a = scan(v, start, true);
        let b = scan(v, a, false);
        let ghost rest = v@.skip(start as int);
        proof {
            assert(rest.skip(a - start) == v@.skip(a as int));
        }
        if b == a {
            proof {
                assert(tokens(rest) == Seq::<Seq<char>>::empty());
                assert(pieces(out@) + Seq::<Seq<char>>::empty() == pieces(out@));
            }
            break;
        }
        let piece = slice_of(v, a, b);
        let ghost before = out@;
        out.push(piece);
        proof {
            assert(rest.subrange(a - start, b - start) == v@.subrange(a as int, b as int));
            assert(rest.skip(b - start) == v@.skip(b as int));
            assert(pieces(out@) == pieces(before).push(piece@));
            assert(tokens(rest) == seq![piece@] + tokens(v@.skip(b as int)));
            assert(pieces(before) + (seq![piece@] + tokens(v@.skip(b as int))) == pieces(out@)
                + tokens(v@.skip(b as int)));
        }
        start = b;
    }
    out
}

/// Whether `pat` stands in `v` at position `i`.
pub fn matches_at(v: &Vec<char>, pat: &Vec<char>, i: usize) -> (r: bool)
    ensures
        r == occurs_at(v@, pat@, i as int),
{
    if pat.len() > v.len() || i > v.len() - pat.len() {
        return false;
    }
    let mut j: usize = 0;
    while j < pat.len()
        invariant
            j <= pat.len(),
            i + pat.len() <= v.len(),
            forall|t: int| 0 <= t < j ==> v@[i + t] == pat@[t],
        decreases pat.len() - j,
    {
        if v[i + j] != pat[j] {
            assert(v@.subrange(i as int, i + pat.len())[j as int] != pat@[j as int]);
            return false;
        }
        j += 1;
    }
    assert(v@.subrange(i as int, i + pat.len()) =~= pat@);
    true
}

/// Whether `pat` stands somewhere in `v`.
pub fn contains_chars(v: &Vec<char>, pat: &Vec<char>) -> (r: bool)
    ensures
        r == contains(v@, pat@),
{
    let mut i: usize = 0;
    while i < v.len()
        invariant
            i <= v.len(),
            forall|t: int| 0 <= t < i ==> !occurs_at(v@, pat@, t),
        decreases v.len() - i,
    {
        if matches_at(v, pat, i) {
            return true;
        }
        i += 1;
    }
    matches_at(v, pat, i)
}

/// Whether `v` and `w` hold the same characters.
pub fn same_chars(v: &Vec<char>, w: &Vec<char>) -> (r: bool)
    ensures
        r == (v@ == w@),
{
    if v.len() != w.len() {
        return false;
    }
    let r = matches_at(v, w, 0);
    proof {
        assert(v@.subrange(0, v.len() as int) == v@);
    }
    r
}

/// Whether `v` holds the characters of `text`.
pub fn is_text(v: &Vec<char>, text: &str) -> (r: bool)
    ensures
        r == (v@ == text@),
{
    let w = chars_of(text);
    same_chars(v, &w)
}

/// Appends the characters of `tail` to `out`.
pub fn append_chars(out: &mut Vec<char>, tail: &Vec<char>)
    ensures
        final(out)@ == old(out)@ + tail@,
{
    let mut i: usize = 0;
    while i < tail.len()
        invariant
            i <= tail.len(),
            out@ == old(out)@ + tail@.take(i as int),
        decreases tail.len() - i,
    {
        out.push(tail[i]);
        assert(tail@.take(i + 1) == tail@.take(i as int).push(tail@[i as int]));
        i += 1;
    }
    assert(tail@.take(tail.len() as int) == tail@);
}

/// The texts of `parts` joined with `sep` between neighbours.
pub fn join(parts: &Vec<Vec<char>>, sep: char) -> (out: Vec<char>)
    ensures
        out@ == join_with(pieces(parts@), sep),
{
    let mut out: Vec<char> = Vec::new();
    let mut i: usize = 0;
    while i < parts.len()
        invariant
            i <= parts.len(),
            out@ == join_with(pieces(parts@).take(i as int), sep),
        decreases parts.len() - i,
    {
        proof {
            let next = pieces(parts@).take(i + 1);
            assert(next.drop_last() == pieces(parts@).take(i as int));
            assert(next.last() == parts@[i as int]@);
            if i == 0 {
                assert(out@ + parts@[0]@ == parts@[0]@);
            }
        }
        if i > 0 {
            out.push(sep);
        }
        append_chars(&mut out, &parts[i]);
        i += 1;
    }
    assert(pieces(parts@).take(parts.len() as int) == pieces(parts@));
    out
}

} // verus!
