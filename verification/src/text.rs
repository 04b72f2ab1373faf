//! Numbers as text.

use std::borrow::Cow;
use vstd::prelude::*;

verus! {

/// The character of one decimal digit.
pub open spec fn digit_char(d: nat) -> char
    recommends
        d < 10,
{
    ((d + 48) as u8) as char
}

/// The decimal digits of `n`, most significant first, with no leading zero
/// but for `0` itself.
pub open spec fn decimal_digits(n: nat) -> Seq<char>
    decreases n,
{
    if n < 10 {
        seq![digit_char(n)]
    } else {
        decimal_digits(n / 10).push(digit_char(n % 10))
    }
}

/// `u64`'s `to_string`: std writes an integer in decimal, most significant
/// digit first, without sign, padding or leading zeros.
#[verifier::external_body]
pub(crate) fn decimal(n: u64) -> (text: String)
    ensures
        text@ == decimal_digits(n as nat),
{
    n.to_string()
}

/// The characters of an owned text, where there is one.
pub open spec fn id_text(text: Option<String>) -> Option<Seq<char>> {
    match text {
        Some(text) => Some(text@),
        None => None,
    }
}

/// The characters of a borrowed text, where there is one.
pub open spec fn str_text(text: Option<&str>) -> Option<Seq<char>> {
    match text {
        Some(text) => Some(text@),
        None => None,
    }
}

/// A text that is either borrowed or owned, as a slice.
pub(crate) fn cow_text<'a>(text: &'a Cow<'static, str>) -> (slice: &'a str)
    ensures
        slice@ == text@,
{
    match text {
        Cow::Borrowed(text) => *text,
        Cow::Owned(text) => text.as_str(),
    }
}

/// A copy of a text that is either borrowed or owned.
pub(crate) fn cow_clone(text: &Cow<'static, str>) -> (copy: Cow<'static, str>)
    ensures
        copy == *text,
{
    match text {
        Cow::Borrowed(text) => Cow::Borrowed(*text),
        Cow::Owned(text) => Cow::Owned(text.clone()),
    }
}

/// The number that a run of decimal digits stands for.
pub open spec fn digits_value(digits: Seq<char>) -> nat
    decreases digits.len(),
{
    if digits.len() == 0 {
        0
    } else {
        digits_value(digits.drop_last()) * 10 + (digits.last() as nat - 48) as nat
    }
}

/// The text is a run of at least one decimal digit.
pub open spec fn is_digits(text: Seq<char>) -> bool {
    &&& text.len() > 0
    &&& forall|i: int| 0 <= i < text.len() ==> '0' <= #[trigger] text[i] && text[i] <= '9'
}

/// The text without the plus sign that it may start with.
pub open spec fn unsigned_part(text: Seq<char>) -> Seq<char> {
    if text.len() > 0 && text[0] == '+' {
        text.subrange(1, text.len() as int)
    } else {
        text
    }
}

/// The number that a text stands for, if it is an optional plus sign and then
/// only decimal digits, at least one, whose number fits 64 bits.
pub open spec fn parsed_u64(text: Seq<char>) -> Option<u64> {
    let digits = unsigned_part(text);
    if is_digits(digits) && digits_value(digits) <= u64::MAX {
        Some(digits_value(digits) as u64)
    } else {
        None
    }
}

/// `str::parse` to `u64`: std takes an optional plus sign followed by only
/// digits, and fails on an empty text, on any other character, and on a
/// number that does not fit.
#[verifier::external_body]
pub(crate) fn parse_u64(text: &str) -> (result: Result<u64, std::num::ParseIntError>)
    ensures
        match result {
            Ok(n) => parsed_u64(text@) == Some(n),
            Err(_) => parsed_u64(text@) is None,
        },
{
    text.parse::<u64>()
}

/// `str::starts_with` with a text as the pattern: whether the pattern's
/// characters are the first characters of the text.
#[verifier::external_body]
pub(crate) fn starts_with(text: &str, prefix: &str) -> (found: bool)
    ensures
        found == (prefix@.len() <= text@.len() && text@.subrange(0, prefix@.len() as int)
            == prefix@),
{
    text.starts_with(prefix)
}

/// `==` on two texts: whether they hold the same characters.
#[verifier::external_body]
pub(crate) fn text_eq(a: &str, b: &str) -> (same: bool)
    ensures
        same == (a@ == b@),
{
    a == b
}

} // verus!
