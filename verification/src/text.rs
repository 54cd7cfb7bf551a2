//! Text helpers that the standard library provides and the verifier needs
//! told about.

use vstd::prelude::*;

verus! {

/// Two string slices are equal, for `==`, where they hold the same
/// characters.
pub assume_specification[ <str as PartialEq>::eq ](a: &str, b: &str) -> (r: bool)
    ensures
        r == (a@ == b@),
;

/// Whether two texts are the same.
pub fn same_text(a: &str, b: &str) -> (r: bool)
    ensures
        r == (a@ == b@),
{
    *a == *b
}

/// The value of a decimal digit; none for any other character.
pub open spec fn digit_value(c: char) -> Option<int> {
    if '0' as int <= c as int <= '9' as int {
        Some(c as int - '0' as int)
    } else {
        None
    }
}

/// A text is made of decimal digits, at least one.
pub open spec fn is_digits(text: Seq<char>) -> bool {
    &&& text.len() > 0
    &&& forall|i: int| 0 <= i < text.len() ==> digit_value(#[trigger] text[i]) is Some
}

/// The number that decimal digits write.
pub open spec fn number_of(digits: Seq<char>) -> nat
    decreases digits.len(),
{
    if digits.len() == 0 {
        0
    } else {
        (number_of(digits.drop_last()) * 10 + digit_value(digits.last())->0) as nat
    }
}

/// The number that a text writes in decimal: an optional `+` or `-` and
/// then digits only. There is none where the text is not of that form, or
/// where the number does not fit.
pub open spec fn parsed_i64(text: Seq<char>) -> Option<i64> {
    let negative = text.len() > 0 && text[0] == '-';
    let signed = text.len() > 0 && (text[0] == '-' || text[0] == '+');
    let digits = if signed {
        text.drop_first()
    } else {
        text
    };
    let value = if negative {
        -number_of(digits)
    } else {
        number_of(digits) as int
    };
    if is_digits(digits) && i64::MIN <= value <= i64::MAX {
        Some(value as i64)
    } else {
        None
    }
}

/// Calls `str::parse::<i64>`, which reads an optional sign and decimal
/// digits and nothing else.
#[verifier::external_body]
pub(crate) fn parse_i64(text: &str) -> (r: Option<i64>)
    ensures
        r == parsed_i64(text@),
{
    text.parse::<i64>().ok()
}

/// Texts put together with one separator between each two.
pub open spec fn joined(parts: Seq<Seq<char>>, separator: char) -> Seq<char>
    decreases parts.len(),
{
    if parts.len() == 0 {
        Seq::empty()
    } else if parts.len() == 1 {
        parts[0]
    } else {
        joined(parts.drop_last(), separator) + seq![separator] + parts.last()
    }
}

/// A list is a text split at a separator where it has at least one piece,
/// no piece holds the separator, and the pieces with the separator between
/// each two are the text again.
pub open spec fn is_split(parts: Seq<Seq<char>>, text: Seq<char>, separator: char) -> bool {
    &&& parts.len() >= 1
    &&& joined(parts, separator) == text
    &&& forall|i: int, j: int|
        0 <= i < parts.len() && 0 <= j < parts[i].len() ==> (#[trigger] parts[i][j]) != separator
}

/// The texts of a list of strings.
pub open spec fn texts(parts: Seq<String>) -> Seq<Seq<char>> {
    parts.map_values(|part: String| part@)
}

/// Calls `str::split` with a character and copies out what it yields: the
/// pieces of the text between the separators, in order.
#[verifier::external_body]
pub(crate) fn split_on(text: &str, separator: char) -> (r: Vec<String>)
    ensures
        is_split(texts(r@), text@, separator),
{
    text.split(separator).map(|piece| piece.to_string()).collect()
}

/// The decimal digit for a value below ten.
pub open spec fn digit_char(value: int) -> char {
    seq!['0', '1', '2', '3', '4', '5', '6', '7', '8', '9'][value]
}

/// A number written in decimal digits, without leading zeros.
pub open spec fn digits_of(number: nat) -> Seq<char>
    decreases number,
{
    if number < 10 {
        seq![digit_char(number as int)]
    } else {
        digits_of(number / 10).push(digit_char((number % 10) as int))
    }
}

/// A number written in decimal: its digits, after a `-` where it is
/// negative.
pub open spec fn decimal_text(number: i64) -> Seq<char> {
    if number < 0 {
        seq!['-'] + digits_of((-number) as nat)
    } else {
        digits_of(number as nat)
    }
}

/// Calls `i64::to_string`, which writes the number in decimal.
#[verifier::external_body]
pub(crate) fn decimal(number: i64) -> (r: String)
    ensures
        r@ == decimal_text(number),
{
    number.to_string()
}

/// Whether a character is white space, as `char::is_whitespace` tells.
pub uninterp spec fn is_white_space(c: char) -> bool;

/// A text without the white space that it begins with.
pub open spec fn trimmed_start(text: Seq<char>) -> Seq<char>
    decreases text.len(),
{
    if text.len() > 0 && is_white_space(text[0]) {
        trimmed_start(text.drop_first())
    } else {
        text
    }
}

/// A text without the white space that it ends in.
pub open spec fn trimmed_end(text: Seq<char>) -> Seq<char>
    decreases text.len(),
{
    if text.len() > 0 && is_white_space(text.last()) {
        trimmed_end(text.drop_last())
    } else {
        text
    }
}

/// A text without the white space at either end.
pub open spec fn trimmed(text: Seq<char>) -> Seq<char> {
    trimmed_end(trimmed_start(text))
}

/// Calls `str::trim`, which takes the white space off both ends, and
/// copies the rest: what is left neither begins nor ends with white space.
#[verifier::external_body]
pub(crate) fn trim(text: &str) -> (r: String)
    ensures
        r@ == trimmed(text@),
        r@.len() > 0 ==> !is_white_space(r@.first()) && !is_white_space(r@.last()),
{
    text.trim().to_string()
}

} // verus!
