//! Unsigned decimal numbers as they appear in a table row.

use crate::chars::{digit, digit_value, is_digit};
use vstd::prelude::*;

verus! {

/// Every character of `s` is an ASCII decimal digit.
pub open spec fn all_digits(s: Seq<char>) -> bool {
    forall|i: int| 0 <= i < s.len() ==> digit(#[trigger] s[i])
}

/// The number that a run of decimal digits denotes, most significant digit
/// first. The empty run denotes zero.
pub open spec fn decimal_value(digits: Seq<char>) -> nat
    decreases digits.len(),
{
    if digits.len() == 0 {
        0
    } else {
        decimal_value(digits.drop_last()) * 10 + digit_value(digits.last())
    }
}

/// The number that `digits` denotes, if it is a non-empty run of decimal
/// digits whose value does not exceed `max`.
pub open spec fn bounded_decimal(digits: Seq<char>, max: nat) -> Option<nat> {
    if digits.len() > 0 && all_digits(digits) && decimal_value(digits) <= max {
        Some(decimal_value(digits))
    } else {
        None
    }
}

/// A process identifier: an optional `+`, then a non-empty run of decimal
/// digits whose value fits in 32 bits. Leading zeros are allowed; anything
/// else, including surrounding whitespace, is rejected.
pub open spec fn pid_of_token(token: Seq<char>) -> Option<u32> {
    let digits = if token.len() > 0 && token[0] == '+' {
        token.skip(1)
    } else {
        token
    };
    match bounded_decimal(digits, u32::MAX as nat) {
        Some(v) => Some(v as u32),
        None => None,
    }
}

/// The character that writes the digit `d`.
pub open spec fn digit_char(d: nat) -> char
    recommends
        d < 10,
{
    ('0' as u32 + d) as char
}

/// The usual way to write `n`: in decimal digits, most significant first,
/// with no leading zero but for zero itself.
pub open spec fn decimal_digits(n: nat) -> Seq<char>
    decreases n,
{
    if n < 10 {
        seq![digit_char(n)]
    } else {
        decimal_digits(n / 10).push(digit_char(n % 10))
    }
}

/// A longer run of digits never denotes less than one of its prefixes.
pub proof fn lemma_decimal_value_prefix(digits: Seq<char>, k: int)
    requires
        0 <= k <= digits.len(),
    ensures
        decimal_value(digits.take(k)) <= decimal_value(digits),
    decreases digits.len(),
{
    if k == digits.len() {
        assert(digits.take(k) =~= digits);
    } else {
        lemma_decimal_value_prefix(digits.drop_last(), k);
        assert(digits.drop_last().take(k) =~= digits.take(k));
    }
}

/// The usual way to write a number is a run of digits that denotes it.
pub proof fn lemma_decimal_digits(n: nat)
    ensures
        decimal_digits(n).len() > 0,
        all_digits(decimal_digits(n)),
        decimal_value(decimal_digits(n)) == n,
    decreases n,
{
    let s = decimal_digits(n);
    if n < 10 {
        assert(decimal_value(s.drop_last()) == 0);
    } else {
        lemma_decimal_digits(n / 10);
        assert(s.drop_last() =~= decimal_digits(n / 10));
    }
}

/// Reads a run of decimal digits as a number no greater than `max`.
pub fn parse_decimal(digits: &[char], max: u32) -> (r: Option<u32>)
    ensures
        r == match bounded_decimal(digits@, max as nat) {
            Some(v) => Some(v as u32),
            None => None,
        },
{
    let n: usize = digits.len();
    if n == 0 {
        return None;
    }
    let mut acc: u32 = 0;
    let mut i: usize = 0;
    while i < n
        invariant
            n == digits@.len(),
            0 <= i <= n,
            acc <= max,
            all_digits(digits@.take(i as int)),
            acc == decimal_value(digits@.take(i as int)),
        decreases n - i,
    {
        let c: char = digits[i];
        if !is_digit(c) {
            return None;
        }
        let d: u64 = (c as u32 - '0' as u32) as u64;
        let next: u64 = acc as u64 * 10 + d;
        proof {
            let longer = digits@.take(i as int + 1);
            assert(longer.drop_last() =~= digits@.take(i as int));
            lemma_decimal_value_prefix(digits@, i as int + 1);
        }
        if next > max as u64 {
            return None;
        }
        acc = next as u32;
        i = i + 1;
    }
    assert(digits@.take(n as int) =~= digits@);
    Some(acc)
}

} // verus!
