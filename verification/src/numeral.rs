//! Decimal numerals: reading them from characters and writing them back.

use vstd::prelude::*;
use vstd::string::StringExecFns;

verus! {

/// Whether `c` is one of the ASCII digits `0` to `9`.
pub open spec fn is_digit(c: char) -> bool {
    '0' <= c && c <= '9'
}

/// The number a digit stands for.
pub open spec fn digit_value(c: char) -> nat
    recommends
        is_digit(c),
{
    (c as int - '0' as int) as nat
}

/// Whether every character of `s` is a digit.
pub open spec fn all_digits(s: Seq<char>) -> bool {
    forall|i: int| 0 <= i < s.len() ==> is_digit(#[trigger] s[i])
}

/// The number a run of digits denotes in base ten; the empty run denotes 0.
pub open spec fn decimal_value(s: Seq<char>) -> nat
    decreases s.len(),
{
    if s.len() == 0 {
        0
    } else {
        decimal_value(s.drop_last()) * 10 + digit_value(s.last())
    }
}

/// `v` where it is at most `cap`, else `cap`.
pub open spec fn capped(v: nat, cap: nat) -> nat {
    if v <= cap {
        v
    } else {
        cap
    }
}

/// A signed decimal numeral taken apart: its sign and its digits.
pub struct Numeral {
    pub negative: bool,
    pub digits: Seq<char>,
}

/// Reads `s` as an optional sign (`+` or `-`) followed by one or more digits
/// and nothing else.
pub open spec fn numeral(s: Seq<char>) -> Option<Numeral> {
    if s.len() > 0 && (s[0] == '+' || s[0] == '-') {
        let digits = s.subrange(1, s.len() as int);
        if digits.len() > 0 && all_digits(digits) {
            Some(Numeral { negative: s[0] == '-', digits })
        } else {
            None
        }
    } else if s.len() > 0 && all_digits(s) {
        Some(Numeral { negative: false, digits: s })
    } else {
        None
    }
}

/// The integer that `s` denotes, if it is a numeral.
pub open spec fn integer_value(s: Seq<char>) -> Option<int> {
    match numeral(s) {
        Some(n) => Some(
            if n.negative {
                -(decimal_value(n.digits) as int)
            } else {
                decimal_value(n.digits) as int
            },
        ),
        None => None,
    }
}

/// Appending one digit multiplies the value by ten and adds the digit.
pub proof fn lemma_decimal_value_step(s: Seq<char>, k: int)
    requires
        0 <= k < s.len(),
    ensures
        decimal_value(s.take(k + 1)) == decimal_value(s.take(k)) * 10 + digit_value(s[k]),
{
    assert(s.take(k + 1).drop_last() =~= s.take(k));
}

/// The value of the digit `c`, or `None` where `c` is no digit.
pub fn digit_of(c: char) -> (r: Option<u8>)
    ensures
        r is Some <==> is_digit(c),
        r is Some ==> r.unwrap() as nat == digit_value(c) && r.unwrap() <= 9,
{
    if c >= '0' && c <= '9' {
        let d: u32 = c as u32 - '0' as u32;
        Some(d as u8)
    } else {
        None
    }
}

/// The largest cap that `scan_digits` and `scan_integer` take: ten times it,
/// plus nine, still fits in a `u64`.
pub const MAX_CAP: u64 = 0x1000_0000_0000_0000;

/// Reads `chars[from..to]` as a run of digits. Gives the run's value, held
/// down to `cap`, or `None` where some character is no digit. The empty run
/// reads as 0.
pub fn scan_digits(chars: &Vec<char>, from: usize, to: usize, cap: u64) -> (r: Option<u64>)
    requires
        from <= to <= chars.len(),
        cap <= MAX_CAP,
    ensures
        r is Some <==> all_digits(chars@.subrange(from as int, to as int)),
        r is Some ==> r.unwrap() == capped(
            decimal_value(chars@.subrange(from as int, to as int)),
            cap as nat,
        ),
{
    let ghost run = chars@.subrange(from as int, to as int);
    let mut acc: u64 = 0;
    let mut i: usize = from;
    while i < to
        invariant
            from <= i <= to <= chars.len(),
            cap <= MAX_CAP,
            run == chars@.subrange(from as int, to as int),
            all_digits(run.take(i - from)),
            acc == capped(decimal_value(run.take(i - from)), cap as nat),
        decreases to - i,
    {
        let c = chars[i];
        match digit_of(c) {
            None => {
                assert(run[i - from] == c);
                return None;
            },
            Some(d) => {
                proof {
                    lemma_decimal_value_step(run, i - from);
                    assert forall|j: int| 0 <= j < run.take(i - from + 1).len() implies is_digit(
                        #[trigger] run.take(i - from + 1)[j],
                    ) by {
                        if j < i - from {
                            assert(run.take(i - from)[j] == run.take(i - from + 1)[j]);
                        }
                    }
                }
                let next: u64 = acc * 10 + d as u64;
                acc = if next > cap { cap } else { next };
                i = i + 1;
            },
        }
    }
    assert(run.take(to - from) =~= run);
    Some(acc)
}

/// Reads `chars[from..to]` as a signed numeral. Gives its sign (`true` for
/// `-`) and its magnitude held down to `cap`, or `None` where the characters
/// are no numeral.
pub fn scan_integer(chars: &Vec<char>, from: usize, to: usize, cap: u64) -> (r: Option<
    (bool, u64),
>)
    requires
        from <= to <= chars.len(),
        cap <= MAX_CAP,
    ensures
        match numeral(chars@.subrange(from as int, to as int)) {
            Some(n) => r == Some((n.negative, capped(decimal_value(n.digits), cap as nat) as u64)),
            None => r is None,
        },
{
    let ghost run = chars@.subrange(from as int, to as int);
    if from == to {
        return None;
    }
    let first = chars[from];
    let signed = first == '+' || first == '-';
    let start: usize = if signed { from + 1 } else { from };
    assert(chars@.subrange(start as int, to as int) =~= if signed {
        run.subrange(1, run.len() as int)
    } else {
        run
    });
    if start == to {
        return None;
    }
    match scan_digits(chars, start, to, cap) {
        Some(magnitude) => Some((first == '-', magnitude)),
        None => None,
    }
}

/// The character that writes the digit `d`.
pub open spec fn digit_char(d: nat) -> char
    recommends
        d < 10,
{
    "0123456789"@[d as int]
}

/// `n` written in base ten, without a sign and without leading zeros.
pub open spec fn decimal_digits(n: nat) -> Seq<char>
    decreases n,
{
    if n < 10 {
        seq![digit_char(n)]
    } else {
        decimal_digits(n / 10).push(digit_char(n % 10))
    }
}

/// The character that writes `d` in base sixteen, in upper case.
pub open spec fn hex_digit(d: nat) -> char
    recommends
        d < 16,
{
    "0123456789ABCDEF"@[d as int]
}

/// A byte as two upper-case hexadecimal digits.
pub open spec fn hex_byte(b: u8) -> Seq<char> {
    seq![hex_digit(b as nat / 16), hex_digit(b as nat % 16)]
}

/// The one-character text of the hexadecimal digit `d`.
pub fn hex_digit_str(d: u8) -> (r: &'static str)
    requires
        d < 16,
    ensures
        r@ == seq![hex_digit(d as nat)],
        d < 10 ==> r@ == seq![digit_char(d as nat)],
{
    proof {
        reveal_strlit("0123456789ABCDEF");
        reveal_strlit("0123456789");
        reveal_strlit("0");
        reveal_strlit("1");
        reveal_strlit("2");
        reveal_strlit("3");
        reveal_strlit("4");
        reveal_strlit("5");
        reveal_strlit("6");
        reveal_strlit("7");
        reveal_strlit("8");
        reveal_strlit("9");
        reveal_strlit("A");
        reveal_strlit("B");
        reveal_strlit("C");
        reveal_strlit("D");
        reveal_strlit("E");
        reveal_strlit("F");
    }
    let r = match d {
        0 => "0",
        1 => "1",
        2 => "2",
        3 => "3",
        4 => "4",
        5 => "5",
        6 => "6",
        7 => "7",
        8 => "8",
        9 => "9",
        10 => "A",
        11 => "B",
        12 => "C",
        13 => "D",
        14 => "E",
        _ => "F",
    };
    r
}

/// Writes `n` in base ten.
pub fn decimal_string(n: u64) -> (s: String)
    ensures
        s@ == decimal_digits(n as nat),
    decreases n,
{
    if n < 10 {
        hex_digit_str(n as u8).to_owned()
    } else {
        let head = decimal_string(n / 10);
        head.concat(hex_digit_str((n % 10) as u8))
    }
}

/// Writes a byte as two upper-case hexadecimal digits.
pub fn hex_byte_string(b: u8) -> (s: String)
    ensures
        s@ == hex_byte(b),
{
    let high = hex_digit_str(b / 16).to_owned();
    let s = high.concat(hex_digit_str(b % 16));
    s
}

/// What `decimal_digits` writes, `decimal_value` reads back.
pub proof fn lemma_decimal_round_trip(n: nat)
    ensures
        decimal_digits(n).len() > 0,
        all_digits(decimal_digits(n)),
        decimal_value(decimal_digits(n)) == n,
    decreases n,
{
    reveal_strlit("0123456789");
    let digits = decimal_digits(n);
    if n < 10 {
        assert(decimal_value(digits.drop_last()) == 0);
    } else {
        lemma_decimal_round_trip(n / 10);
        assert(digits.drop_last() =~= decimal_digits(n / 10));
        assert forall|i: int| 0 <= i < digits.len() implies is_digit(#[trigger] digits[i]) by {
            if i < digits.len() - 1 {
                assert(digits[i] == decimal_digits(n / 10)[i]);
            }
        }
    }
}

} // verus!
