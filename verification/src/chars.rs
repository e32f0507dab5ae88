//! Character classes that the row grammar is built from.

use vstd::prelude::*;

verus! {

/// Characters with the Unicode `White_Space` property.
pub open spec fn whitespace(c: char) -> bool {
    let u = c as u32;
    ||| 0x09 <= u <= 0x0D
    ||| u == 0x20
    ||| u == 0x85
    ||| u == 0xA0
    ||| u == 0x1680
    ||| 0x2000 <= u <= 0x200A
    ||| u == 0x2028
    ||| u == 0x2029
    ||| u == 0x202F
    ||| u == 0x205F
    ||| u == 0x3000
}

/// The ten ASCII decimal digits.
pub open spec fn digit(c: char) -> bool {
    '0' <= c <= '9'
}

/// The numeric value of an ASCII decimal digit.
pub open spec fn digit_value(c: char) -> nat
    recommends
        digit(c),
{
    (c as u32 - '0' as u32) as nat
}

/// The characters that may stand between an address and its port.
pub open spec fn separator(c: char) -> bool {
    c == '.' || c == ':'
}

/// `c` is the ASCII letter `lower`, in either case.
pub open spec fn letter(c: char, lower: char) -> bool
    recommends
        'a' <= lower <= 'z',
{
    c == lower || c as u32 + 0x20 == lower as u32
}

/// `c` with an upper-case ASCII letter replaced by its lower-case form.
pub open spec fn lower_case(c: char) -> char {
    if 'A' <= c <= 'Z' {
        (c as u32 + 0x20) as char
    } else {
        c
    }
}

/// `a` and `b` are the same character, or the same ASCII letter in
/// different cases.
pub open spec fn same_ignoring_case(a: char, b: char) -> bool {
    lower_case(a) == lower_case(b)
}

/// Tells whether `c` is whitespace.
pub fn is_whitespace(c: char) -> (b: bool)
    ensures
        b == whitespace(c),
{
    let u: u32 = c as u32;
    (0x09 <= u && u <= 0x0D) || u == 0x20 || u == 0x85 || u == 0xA0 || u == 0x1680 || (0x2000 <= u
        && u <= 0x200A) || u == 0x2028 || u == 0x2029 || u == 0x202F || u == 0x205F || u == 0x3000
}

/// Tells whether `c` is an ASCII decimal digit.
pub fn is_digit(c: char) -> (b: bool)
    ensures
        b == digit(c),
{
    '0' <= c && c <= '9'
}

/// Tells whether `c` may stand between an address and its port.
pub fn is_separator(c: char) -> (b: bool)
    ensures
        b == separator(c),
{
    c == '.' || c == ':'
}

/// Tells whether `c` is the ASCII letter `lower`, in either case.
pub fn is_letter(c: char, lower: char) -> (b: bool)
    ensures
        b == letter(c, lower),
{
    c == lower || c as u32 + 0x20 == lower as u32
}

} // verus!
