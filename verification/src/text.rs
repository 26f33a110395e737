//! Characters of a text: white space, trimming and splitting into fields.

use vstd::prelude::*;
use vstd::std_specs::iter::IteratorSpec;

verus! {

/// The characters of `s`, in order.
pub fn to_chars(s: &str) -> (v: Vec<char>)
    ensures
        v@ == s@,
{
    let mut v: Vec<char> = Vec::new();
    for c in it: s.chars()
        invariant
            it.seq() == s@,
            v@ == it.seq().take(it.index() as int),
    {
        v.push(c);
    }
    v
}

/// Whether two texts hold the same characters.
pub fn same_text(a: &str, b: &str) -> (r: bool)
    ensures
        r == (a@ == b@),
{
    let a = a.to_owned();
    let b = b.to_owned();
    a == b
}

/// Whether `chars[from..to]` reads `word`.
pub fn range_is(chars: &Vec<char>, from: usize, to: usize, word: &str) -> (r: bool)
    requires
        from <= to <= chars.len(),
    ensures
        r == (chars@.subrange(from as int, to as int) == word@),
{
    let letters = to_chars(word);
    if letters.len() != to - from {
        return false;
    }
    let ghost run = chars@.subrange(from as int, to as int);
    let mut i: usize = 0;
    while i < letters.len()
        invariant
            from <= to <= chars.len(),
            letters.len() == to - from,
            run == chars@.subrange(from as int, to as int),
            letters@ == word@,
            i <= letters.len(),
            forall|j: int| 0 <= j < i ==> run[j] == letters@[j],
        decreases letters.len() - i,
    {
        if chars[from + i] != letters[i] {
            return false;
        }
        i = i + 1;
    }
    assert(run =~= letters@);
    true
}

/// Whether `c` has the Unicode property `White_Space`.
pub open spec fn white_space(c: char) -> bool {
    ||| ('\u{9}' <= c && c <= '\u{D}')
    ||| c == ' '
    ||| c == '\u{85}'
    ||| c == '\u{A0}'
    ||| c == '\u{1680}'
    ||| ('\u{2000}' <= c && c <= '\u{200A}')
    ||| c == '\u{2028}'
    ||| c == '\u{2029}'
    ||| c == '\u{202F}'
    ||| c == '\u{205F}'
    ||| c == '\u{3000}'
}

/// Whether `c` is white space.
pub fn is_white_space(c: char) -> (r: bool)
    ensures
        r == white_space(c),
{
    (c >= '\u{9}' && c <= '\u{D}') || c == ' ' || c == '\u{85}' || c == '\u{A0}' || c
        == '\u{1680}' || (c >= '\u{2000}' && c <= '\u{200A}') || c == '\u{2028}' || c
        == '\u{2029}' || c == '\u{202F}' || c == '\u{205F}' || c == '\u{3000}'
}

/// How many white-space characters `s` begins with.
pub open spec fn leading_spaces(s: Seq<char>) -> nat
    decreases s.len(),
{
    if s.len() > 0 && white_space(s[0]) {
        1 + leading_spaces(s.subrange(1, s.len() as int))
    } else {
        0
    }
}

/// How many white-space characters `s` ends with.
pub open spec fn trailing_spaces(s: Seq<char>) -> nat
    decreases s.len(),
{
    if s.len() > 0 && white_space(s.last()) {
        1 + trailing_spaces(s.drop_last())
    } else {
        0
    }
}

/// `s` without the white space at its start and at its end.
pub open spec fn trimmed(s: Seq<char>) -> Seq<char> {
    let rest = s.subrange(leading_spaces(s) as int, s.len() as int);
    rest.subrange(0, rest.len() - trailing_spaces(rest))
}

/// `leading_spaces(s)` is the place of the first character that is no white
/// space, or the length of `s` where there is none.
pub proof fn lemma_leading_spaces(s: Seq<char>, k: int)
    requires
        0 <= k <= s.len(),
        forall|j: int| 0 <= j < k ==> white_space(#[trigger] s[j]),
        k < s.len() ==> !white_space(s[k]),
    ensures
        leading_spaces(s) == k,
    decreases k,
{
    if k > 0 {
        let rest = s.subrange(1, s.len() as int);
        assert(forall|j: int| 0 <= j < k - 1 ==> white_space(#[trigger] rest[j]));
        lemma_leading_spaces(rest, k - 1);
    }
}

/// `trailing_spaces(s)` counts back from the end to the last character that
/// is no white space.
pub proof fn lemma_trailing_spaces(s: Seq<char>, k: int)
    requires
        0 <= k <= s.len(),
        forall|j: int| s.len() - k <= j < s.len() ==> white_space(#[trigger] s[j]),
        k < s.len() ==> !white_space(s[s.len() - k - 1]),
    ensures
        trailing_spaces(s) == k,
    decreases k,
{
    if k > 0 {
        let rest = s.drop_last();
        assert(forall|j: int|
            rest.len() - (k - 1) <= j < rest.len() ==> white_space(#[trigger] rest[j]));
        lemma_trailing_spaces(rest, k - 1);
    }
}

/// Where the trimmed text lies in `chars`: it is `chars[from..to]`, with
/// `from` behind the white space at the start and `to` before the white
/// space at the end. Where all is white space, both are the length.
pub fn trim_bounds(chars: &Vec<char>) -> (r: (usize, usize))
    ensures
        r.0 <= r.1 <= chars.len(),
        r.0 == leading_spaces(chars@),
        r.1 == chars.len() - trailing_spaces(chars@.subrange(r.0 as int, chars.len() as int)),
        chars@.subrange(r.0 as int, r.1 as int) == trimmed(chars@),
{
    let n = chars.len();
    let mut a: usize = 0;
    while a < n && is_white_space(chars[a])
        invariant
            a <= n == chars.len(),
            forall|j: int| 0 <= j < a ==> white_space(#[trigger] chars@[j]),
        decreases n - a,
    {
        a = a + 1;
    }
    let mut b: usize = n;
    while b > a && is_white_space(chars[b - 1])
        invariant
            a <= b <= n == chars.len(),
            forall|j: int| b <= j < n ==> white_space(#[trigger] chars@[j]),
        decreases b,
    {
        b = b - 1;
    }
    proof {
        let s = chars@;
        lemma_leading_spaces(s, a as int);
        let rest = s.subrange(a as int, n as int);
        assert(forall|j: int|
            rest.len() - (n - b) <= j < rest.len() ==> white_space(#[trigger] rest[j]));
        lemma_trailing_spaces(rest, n - b);
    }
    (a, b)
}

/// The place of the first `sep` in `s`, or the length of `s` where it holds
/// none.
pub open spec fn first_index(s: Seq<char>, sep: char) -> nat
    decreases s.len(),
{
    if s.len() == 0 || s[0] == sep {
        0
    } else {
        1 + first_index(s.subrange(1, s.len() as int), sep)
    }
}

/// The fields of `s`: the stretches between one `sep` and the next. A text
/// without `sep` is one field, the empty text too.
pub open spec fn split(s: Seq<char>, sep: char) -> Seq<Seq<char>>
    decreases s.len(),
{
    let i = first_index(s, sep) as int;
    if i >= s.len() {
        seq![s]
    } else {
        seq![s.subrange(0, i)] + split(s.subrange(i + 1, s.len() as int), sep)
    }
}

/// `first_index(s, sep)` is `k` where no `sep` stands before `k` and one
/// stands at `k`, or `s` ends there.
pub proof fn lemma_first_index(s: Seq<char>, sep: char, k: int)
    requires
        0 <= k <= s.len(),
        forall|j: int| 0 <= j < k ==> #[trigger] s[j] != sep,
        k < s.len() ==> s[k] == sep,
    ensures
        first_index(s, sep) == k,
    decreases k,
{
    if k > 0 {
        let rest = s.subrange(1, s.len() as int);
        assert(forall|j: int| 0 <= j < k - 1 ==> #[trigger] rest[j] != sep);
        lemma_first_index(rest, sep, k - 1);
    }
}

/// The stretches of `chars` that the pairs in `ranges` mark out.
pub open spec fn stretches(chars: Seq<char>, ranges: Seq<(usize, usize)>) -> Seq<Seq<char>> {
    Seq::new(ranges.len(), |k: int| chars.subrange(ranges[k].0 as int, ranges[k].1 as int))
}

/// Splits `chars[from..to]` at each `sep`. Each pair of the result marks one
/// field out in `chars`.
pub fn split_ranges(chars: &Vec<char>, from: usize, to: usize, sep: char) -> (r: Vec<
    (usize, usize),
>)
    requires
        from <= to <= chars.len(),
    ensures
        stretches(chars@, r@) == split(chars@.subrange(from as int, to as int), sep),
        forall|k: int| 0 <= k < r.len() ==> from <= (#[trigger] r[k]).0 <= r[k].1 <= to,
        r.len() > 0,
        r[0].0 == from,
        r[r.len() - 1].1 == to,
        forall|k: int| 0 <= k < r.len() - 1 ==> (#[trigger] r[k]).1 + 1 == r[k + 1].0,
{
    let mut out: Vec<(usize, usize)> = Vec::new();
    let mut start: usize = from;
    let mut p: usize = from;
    while p < to
        invariant
            from <= start <= p <= to <= chars.len(),
            forall|j: int| start <= j < p ==> #[trigger] chars@[j] != sep,
            split(chars@.subrange(from as int, to as int), sep) == stretches(chars@, out@)
                + split(chars@.subrange(start as int, to as int), sep),
            forall|k: int| 0 <= k < out.len() ==> from <= (#[trigger] out[k]).0 <= out[k].1 <= to,
            out.len() == 0 ==> start == from,
            out.len() > 0 ==> out[0].0 == from && out[out.len() - 1].1 + 1 == start,
            forall|k: int| 0 <= k < out.len() - 1 ==> (#[trigger] out[k]).1 + 1 == out[k + 1].0,
        decreases to - p,
    {
        if chars[p] == sep {
            proof {
                let field = chars@.subrange(start as int, to as int);
                assert(forall|j: int| 0 <= j < p - start ==> #[trigger] field[j] != sep);
                lemma_first_index(field, sep, p - start);
                assert(field.subrange(0, p - start) =~= chars@.subrange(start as int, p as int));
                assert(field.subrange(p - start + 1, field.len() as int) =~= chars@.subrange(
                    p + 1,
                    to as int,
                ));
                assert(stretches(chars@, out@.push((start, p))) =~= stretches(chars@, out@)
                    + seq![chars@.subrange(start as int, p as int)]);
            }
            out.push((start, p));
            start = p + 1;
        }
        p = p + 1;
    }
    proof {
        let field = chars@.subrange(start as int, to as int);
        assert(forall|j: int| 0 <= j < to - start ==> #[trigger] field[j] != sep);
        lemma_first_index(field, sep, to - start);
        assert(stretches(chars@, out@.push((start, to))) =~= stretches(chars@, out@)
            + seq![field]);
    }
    out.push((start, to));
    out
}

} // verus!
