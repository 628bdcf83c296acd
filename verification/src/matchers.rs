//! The recognisers that pick one field of a food record out of a fragment.
//!
//! Three fields are numbers that a pattern with one capture group finds; the
//! description is either marked as a list item or has the shape "label: value".

use crate::error::ParseError;
use crate::number::{all_digits, decimal_value, is_digit, parse_u32, read_u32};
use crate::pattern::{captures_of, is_match_of, pattern_accepted, regex_captures, regex_is_match};
use vstd::prelude::*;
use vstd::string::StrSliceExecFns;

verus! {

/// A weight indicator, then the number of grams or millilitres.
pub const QUANTITY_PATTERN: &'static str = r"Gramaje?\s*:?\s*([0-9]+)\s*[gm]";

/// A number directly before the kilocalorie unit.
pub const CALORIES_PATTERN: &'static str = r"([0-9]+)\s*kcal";

/// The protein label, then the number of grams.
pub const PROTEINS_PATTERN: &'static str = r"proteine\s*:?\s*([0-9]+)\s*g";

/// A line break, then a label and a value around a single colon, with no
/// digit in either.
pub const DESCRIPTION_PATTERN: &'static str = r"^\n[^*][^:0-9]+:[^:0-9]+$";

/// The number in the first capture group of a match: none where nothing
/// matched or the group took no part, an error where the group's text does
/// not read as a `u32`.
pub open spec fn number_of_captures(captures: Option<Seq<Option<Seq<char>>>>) -> Result<
    Option<u32>,
    ParseError,
> {
    if captures is Some && captures->0.len() > 1 && captures->0[1] is Some {
        match read_u32(captures->0[1]->0) {
            Some(number) => Ok(Some(number)),
            None => Err(ParseError::NotANumber),
        }
    } else {
        Ok(None)
    }
}

/// The number that `pattern` finds in `fragment`.
pub open spec fn number_in(pattern: Seq<char>, fragment: Seq<char>) -> Result<
    Option<u32>,
    ParseError,
> {
    if pattern_accepted(pattern) {
        number_of_captures(captures_of(pattern, fragment))
    } else {
        Err(ParseError::InvalidPattern)
    }
}

/// Whether `fragment` begins with the list marker, a line break and a hyphen.
pub open spec fn has_list_marker(fragment: Seq<char>) -> bool {
    fragment.len() >= 2 && fragment[0] == '\n' && fragment[1] == '-'
}

/// The description that `fragment` holds, given whether it has the shape
/// "label: value". A list item is its own description, without the marker,
/// whatever its shape. Any other fragment of that shape is a description
/// after its first character. An empty fragment has no first character to
/// give up and holds none.
pub open spec fn description_of(fragment: Seq<char>, shaped: bool) -> Option<Seq<char>> {
    if has_list_marker(fragment) {
        Some(fragment.skip(2))
    } else if shaped && fragment.len() > 0 {
        Some(fragment.skip(1))
    } else {
        None
    }
}

/// The description that `fragment` holds, where `pattern` describes the shape
/// "label: value". The pattern is consulted only where the list marker is absent.
pub open spec fn description_in(pattern: Seq<char>, fragment: Seq<char>) -> Result<
    Option<Seq<char>>,
    ParseError,
> {
    if has_list_marker(fragment) || pattern_accepted(pattern) {
        Ok(description_of(fragment, is_match_of(pattern, fragment)))
    } else {
        Err(ParseError::InvalidPattern)
    }
}

/// A matcher returns exactly the integer that its pattern picked out: where
/// the first capture group holds decimal digits, the number they write.
pub proof fn lemma_number_is_the_captured_digits(
    pattern: Seq<char>,
    fragment: Seq<char>,
    digits: Seq<char>,
)
    requires
        pattern_accepted(pattern),
        captures_of(pattern, fragment) matches Some(groups) && groups.len() > 1 && groups[1]
            == Some(digits),
        digits.len() > 0,
        all_digits(digits),
        decimal_value(digits) <= u32::MAX,
    ensures
        number_in(pattern, fragment) == Ok::<Option<u32>, ParseError>(
            Some(decimal_value(digits) as u32),
        ),
{
    assert(is_digit(digits[0]));
}

/// A fragment that begins with the list marker is its own description,
/// without the marker's two characters, whatever else it holds and whatever
/// the pattern is.
pub proof fn lemma_list_item_is_its_description(pattern: Seq<char>, fragment: Seq<char>)
    requires
        has_list_marker(fragment),
    ensures
        description_in(pattern, fragment) == Ok::<Option<Seq<char>>, ParseError>(
            Some(fragment.skip(2)),
        ),
{
}

/// What a matcher's answer says, with the text it holds as a sequence of characters.
pub open spec fn description_view(found: Result<Option<String>, ParseError>) -> Result<
    Option<Seq<char>>,
    ParseError,
> {
    match found {
        Ok(text) => Ok(text.deep_view()),
        Err(error) => Err(error),
    }
}

/// Reads the number in the first capture group of a match.
pub fn number_from_captures(captures: &Option<Vec<Option<String>>>) -> (found: Result<
    Option<u32>,
    ParseError,
>)
    ensures
        found == number_of_captures(captures.deep_view()),
{
    match captures {
        Some(groups) => {
            if groups.len() > 1 {
                assert(groups.deep_view()[1] == groups@[1].deep_view());
                match &groups[1] {
                    Some(text) => match parse_u32(text.as_str()) {
                        Some(number) => Ok(Some(number)),
                        None => Err(ParseError::NotANumber),
                    },
                    None => Ok(None),
                }
            } else {
                Ok(None)
            }
        },
        None => Ok(None),
    }
}

/// Looks for `pattern` in `s` and reads the number in its first capture group.
pub fn extract_u32(pattern: &str, s: &str) -> (found: Result<Option<u32>, ParseError>)
    ensures
        found == number_in(pattern@, s@),
{
    match regex_captures(pattern, s) {
        Ok(captures) => number_from_captures(&captures),
        Err(_) => Err(ParseError::InvalidPattern),
    }
}

/// Whether `s` begins with the list marker.
pub fn starts_with_list_marker(s: &str) -> (marked: bool)
    ensures
        marked == has_list_marker(s@),
{
    s.unicode_len() >= 2 && s.get_char(0) == '\n' && s.get_char(1) == '-'
}

/// Takes the description out of `s`, given whether `s` has the shape
/// "label: value".
pub fn description_from_shape(s: &str, shaped: bool) -> (found: Option<String>)
    ensures
        found.deep_view() == description_of(s@, shaped),
{
    let len = s.unicode_len();
    if starts_with_list_marker(s) {
        Some(s.substring_char(2, len).to_owned())
    } else if shaped && len > 0 {
        Some(s.substring_char(1, len).to_owned())
    } else {
        None
    }
}

/// Takes the description out of `s`, where `pattern` describes the shape
/// "label: value". A fragment that begins with the list marker is accepted
/// without a look at the pattern.
pub fn extract_description(pattern: &str, s: &str) -> (found: Result<Option<String>, ParseError>)
    ensures
        description_view(found) == description_in(pattern@, s@),
        has_list_marker(s@) ==> description_view(found) == Ok::<Option<Seq<char>>, ParseError>(
            Some(s@.skip(2)),
        ),
{
    if starts_with_list_marker(s) {
        Ok(description_from_shape(s, false))
    } else {
        match regex_is_match(pattern, s) {
            Ok(shaped) => Ok(description_from_shape(s, shaped)),
            Err(_) => Err(ParseError::InvalidPattern),
        }
    }
}

} // verus!
