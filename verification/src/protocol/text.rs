//! Small helpers for building and reading text one character at a time.

use std::num::ParseIntError;
use vstd::prelude::*;
use vstd::std_specs::iter::IteratorSpec;

verus! {

/// The standard library's `String::push`: the new contents are the old ones
/// followed by the pushed character.
pub assume_specification[ String::push ](s: &mut String, ch: char)
    ensures
        final(s)@ == old(s)@.push(ch),
;

/// The standard library's `String::into_boxed_str`: the boxed text holds the
/// same characters.
pub assume_specification[ String::into_boxed_str ](s: String) -> (b: Box<str>)
    ensures
        b@ == s@,
;

/// Whether `c` is one of the ASCII decimal digits.
pub open spec fn is_digit(c: char) -> bool {
    '0' <= c <= '9'
}

/// The value of an ASCII decimal digit.
pub open spec fn digit_value(c: char) -> int
    recommends
        is_digit(c),
{
    c as int - '0' as int
}

/// The ASCII character of a hexadecimal digit, upper case for ten to fifteen.
pub open spec fn hex_char(n: u8) -> char
    recommends
        n <= 15,
{
    if n < 10 {
        (n + 48) as char
    } else {
        (n + 55) as char
    }
}

/// Renders a value below sixteen as one upper-case hexadecimal digit.
pub fn hex_digit(n: u8) -> (c: char)
    requires
        n <= 15,
    ensures
        c == hex_char(n),
{
    if n < 10 {
        (n + 48) as char
    } else {
        (n + 55) as char
    }
}

/// The characters of a string, in order.
pub fn chars_of(s: &str) -> (v: Vec<char>)
    ensures
        v@ == s@,
{
    let mut v: Vec<char> = Vec::new();
    for c in it: s.chars()
        invariant
            it.seq() == s@,
            v@ == it.seq().take(it.index() as int),
    {
        v.push(c);
        assert(v@ =~= it.seq().take(it.index() + 1));
    }
    assert(v@ =~= s@);
    v
}

/// The ASCII character of a decimal digit.
pub open spec fn dec_char(n: u8) -> char
    recommends
        n <= 9,
{
    (n + 48) as char
}

/// Renders a value below ten as its decimal digit.
pub fn dec_digit(n: u8) -> (c: char)
    requires
        n <= 9,
    ensures
        c == dec_char(n),
{
    (n + 48) as char
}

/// What two characters are worth when read as a decimal number: either two
/// digits, or a plus sign and one digit. Anything else is no number.
pub open spec fn two_digit_value(first: char, second: char) -> Option<u8> {
    if is_digit(first) && is_digit(second) {
        Some((digit_value(first) * 10 + digit_value(second)) as u8)
    } else if first == '+' && is_digit(second) {
        Some(digit_value(second) as u8)
    } else {
        None
    }
}

/// The standard library's `str::parse::<u8>` on a text of exactly the two
/// given characters. It accepts an optional plus sign followed by ASCII
/// decimal digits, at least one, and yields their value; any other text is an
/// error. Two characters are never worth more than ninety-nine, so the value
/// always fits.
#[verifier::external_body]
pub(crate) fn parse_two_digits(first: char, second: char) -> (r: Result<u8, ParseIntError>)
    ensures
        match r {
            Ok(v) => two_digit_value(first, second) == Some(v),
            Err(_) => two_digit_value(first, second) is None,
        },
{
    format!("{}{}", first, second).parse::<u8>()
}

} // verus!
