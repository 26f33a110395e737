//! Lengths of time as the prober prints them: seconds with a decimal point,
//! held here as whole milliseconds.

use crate::numeral::{all_digits, capped, decimal_value, digit_of, digit_value, scan_digits};
use crate::text::{first_index, lemma_first_index, to_chars, trim_bounds, trimmed};
use vstd::prelude::*;

verus! {

/// The length assumed where the prober reports none that can be read.
pub const DEFAULT_DURATION_MS: u64 = 1000;

/// The digit at place `i` of `s`, or 0 where `s` is shorter.
pub open spec fn digit_at(s: Seq<char>, i: int) -> nat {
    if 0 <= i < s.len() {
        digit_value(s[i])
    } else {
        0
    }
}

/// The digits after a decimal point as thousandths; digits beyond the third
/// are cut off.
pub open spec fn fraction_millis(fraction: Seq<char>) -> nat {
    digit_at(fraction, 0) * 100 + digit_at(fraction, 1) * 10 + digit_at(fraction, 2)
}

/// Reads `s` as seconds: digits, then optionally a point and more digits,
/// with at least one digit in all. Gives the length in milliseconds, cut off
/// below the millisecond.
pub open spec fn seconds_millis(s: Seq<char>) -> Option<nat> {
    let point = first_index(s, '.') as int;
    let whole = s.subrange(0, point);
    let fraction = if point < s.len() {
        s.subrange(point + 1, s.len() as int)
    } else {
        Seq::<char>::empty()
    };
    if all_digits(whole) && all_digits(fraction) && whole.len() + fraction.len() > 0 {
        Some(decimal_value(whole) * 1000 + fraction_millis(fraction))
    } else {
        None
    }
}

/// The length that `s` states, in milliseconds and at most `u64::MAX`.
pub open spec fn duration_millis(s: Seq<char>) -> Option<u64> {
    match seconds_millis(s) {
        Some(ms) => Some(capped(ms, u64::MAX as nat) as u64),
        None => None,
    }
}

/// The length that `s` states, or the default where it states none.
pub open spec fn duration_or_default(s: Seq<char>) -> u64 {
    match duration_millis(s) {
        Some(ms) => ms,
        None => DEFAULT_DURATION_MS,
    }
}

/// The digit at place `i` of the digits `chars[from..to]`, or 0 where there
/// are fewer.
fn fraction_digit(chars: &Vec<char>, from: usize, to: usize, i: usize) -> (d: u64)
    requires
        from <= to <= chars.len(),
        all_digits(chars@.subrange(from as int, to as int)),
        i <= 2,
    ensures
        d == digit_at(chars@.subrange(from as int, to as int), i as int),
        d <= 9,
{
    if i < to - from {
        match digit_of(chars[from + i]) {
            Some(v) => v as u64,
            None => 0,
        }
    } else {
        0
    }
}

/// Whole seconds from here on are more milliseconds than a `u64` holds.
const WHOLE_CAP: u64 = 18_446_744_073_709_552;

/// Reads `chars[from..to]` as a length in seconds and gives it in
/// milliseconds, `None` where the characters state no length.
pub fn scan_seconds(chars: &Vec<char>, from: usize, to: usize) -> (r: Option<u64>)
    requires
        from <= to <= chars.len(),
    ensures
        r == duration_millis(chars@.subrange(from as int, to as int)),
{
    let ghost s = chars@.subrange(from as int, to as int);
    let mut point: usize = from;
    while point < to && chars[point] != '.'
        invariant
            from <= point <= to <= chars.len(),
            forall|j: int| from <= j < point ==> #[trigger] chars@[j] != '.',
        decreases to - point,
    {
        point = point + 1;
    }
    let after: usize = if point < to { point + 1 } else { to };
    proof {
        assert(forall|j: int| 0 <= j < point - from ==> #[trigger] s[j] != '.');
        lemma_first_index(s, '.', point - from);
        assert(s.subrange(0, point - from) =~= chars@.subrange(from as int, point as int));
        if point < to {
            assert(s.subrange(point - from + 1, s.len() as int) =~= chars@.subrange(
                after as int,
                to as int,
            ));
        }
    }
    if (point - from) + (to - after) == 0 {
        return None;
    }
    let whole = scan_digits(chars, from, point, WHOLE_CAP);
    let fraction = scan_digits(chars, after, to, 0);
    match (whole, fraction) {
        (Some(w), Some(_)) => {
            let d0 = fraction_digit(chars, after, to, 0);
            let d1 = fraction_digit(chars, after, to, 1);
            let d2 = fraction_digit(chars, after, to, 2);
            let total: u128 = w as u128 * 1000 + (d0 * 100 + d1 * 10 + d2) as u128;
            if total > u64::MAX as u128 {
                Some(u64::MAX)
            } else {
                Some(total as u64)
            }
        },
        _ => None,
    }
}

/// Reads what the prober printed for a length: seconds, with white space
/// around them. Gives milliseconds.
pub fn parse_seconds(text: &str) -> (r: Option<u64>)
    ensures
        r == duration_millis(trimmed(text@)),
{
    let chars = to_chars(text);
    let (from, to) = trim_bounds(&chars);
    scan_seconds(&chars, from, to)
}

} // verus!
