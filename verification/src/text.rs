//! Text operations of the standard library that the analysis relies on.

use vstd::prelude::*;

verus! {

/// `needle` stands in `hay` at position `at`.
pub open spec fn occurs_at(needle: Seq<char>, hay: Seq<char>, at: int) -> bool {
    0 <= at && at + needle.len() <= hay.len() && hay.subrange(at, at + needle.len()) == needle
}

/// `needle` occurs somewhere in `hay` as an unbroken run of characters.
pub open spec fn is_substring(needle: Seq<char>, hay: Seq<char>) -> bool {
    exists|at: int| occurs_at(needle, hay, at)
}

/// The upper-case form that `str::to_uppercase` gives a text.
pub uninterp spec fn uppercase(text: Seq<char>) -> Seq<char>;

/// `str::to_uppercase`: the result is the upper-case form of the text, which
/// depends on the text alone.
pub assume_specification[ str::to_uppercase ](text: &str) -> (upper: String)
    ensures
        upper@ == uppercase(text@),
;

/// `str::contains` with a string pattern: true exactly when the pattern
/// matches a sub-slice of the text.
#[verifier::external_body]
pub(crate) fn contains(hay: &str, needle: &str) -> (found: bool)
    ensures
        found == is_substring(needle@, hay@),
{
    hay.contains(needle)
}

/// `str::starts_with` with a string pattern: true exactly when the pattern
/// matches a prefix of the text.
#[verifier::external_body]
pub(crate) fn starts_with(text: &str, prefix: &str) -> (found: bool)
    ensures
        found == prefix@.is_prefix_of(text@),
{
    text.starts_with(prefix)
}

/// `==` on string slices: true exactly when both hold the same characters.
#[verifier::external_body]
pub(crate) fn same_text(left: &str, right: &str) -> (same: bool)
    ensures
        same == (left@ == right@),
{
    left == right
}

/// The pieces of `text` between the occurrences of `separator`, in their
/// order. A text without the separator is one piece, and so is the empty text.
pub open spec fn pieces(text: Seq<char>, separator: char) -> Seq<Seq<char>>
    decreases text.len(),
{
    if text.len() == 0 {
        seq![Seq::empty()]
    } else {
        let later = pieces(text.drop_first(), separator);
        if text[0] == separator {
            seq![Seq::empty()] + later
        } else {
            later.update(0, seq![text[0]] + later[0])
        }
    }
}

/// `str::split` with a character pattern: the substrings of the text that
/// the character separates, in their order.
#[verifier::external_body]
pub(crate) fn split(text: &str, separator: char) -> (parts: Vec<String>)
    ensures
        parts.deep_view() == pieces(text@, separator),
{
    text.split(separator).map(|part| part.to_string()).collect()
}

/// Whether a character is one of the decimal digits `0` to `9`.
pub open spec fn is_digit(c: char) -> bool {
    '0' <= c <= '9'
}

/// The number that a run of decimal digits spells.
pub open spec fn digits_value(digits: Seq<char>) -> int
    decreases digits.len(),
{
    if digits.len() == 0 {
        0
    } else {
        digits_value(digits.drop_last()) * 10 + (digits.last() as int - '0' as int)
    }
}

/// The number that a text spells in decimal: one or more digits, with a `+`
/// or a `-` before them or without a sign; `None` for any other text.
pub open spec fn decimal(text: Seq<char>) -> Option<int> {
    let signed = text.len() > 0 && (text[0] == '-' || text[0] == '+');
    let digits = if signed {
        text.drop_first()
    } else {
        text
    };
    if digits.len() > 0 && (forall|i: int| 0 <= i < digits.len() ==> is_digit(#[trigger] digits[i])) {
        if text[0] == '-' {
            Some(-digits_value(digits))
        } else {
            Some(digits_value(digits))
        }
    } else {
        None
    }
}

/// The number of type `i8` that a text spells in decimal.
pub open spec fn decimal_i8(text: Seq<char>) -> Option<i8> {
    match decimal(text) {
        Some(value) => if i8::MIN <= value <= i8::MAX {
            Some(value as i8)
        } else {
            None
        },
        None => None,
    }
}

/// The number of type `i64` that a text spells in decimal.
pub open spec fn decimal_i64(text: Seq<char>) -> Option<i64> {
    match decimal(text) {
        Some(value) => if i64::MIN <= value <= i64::MAX {
            Some(value as i64)
        } else {
            None
        },
        None => None,
    }
}

/// `str::parse::<i8>`: the number that the text spells in decimal, with or
/// without a sign, where it is a number of the type; `None` where the call
/// reports an error.
#[verifier::external_body]
pub(crate) fn parse_i8(text: &str) -> (number: Option<i8>)
    ensures
        number == decimal_i8(text@),
{
    text.parse::<i8>().ok()
}

/// `str::parse::<i64>`: the number that the text spells in decimal, with or
/// without a sign, where it is a number of the type; `None` where the call
/// reports an error.
#[verifier::external_body]
pub(crate) fn parse_i64(text: &str) -> (number: Option<i64>)
    ensures
        number == decimal_i64(text@),
{
    text.parse::<i64>().ok()
}

} // verus!
