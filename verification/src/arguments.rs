//! The three identifiers that select the menu of the day.
//!
//! The page carries them as the arguments of a call, written in the text of
//! an attribute: a numeric id, a date and a numeric program id.

use crate::error::ParseError;
use crate::pattern::{captures_of, pattern_accepted, regex_captures};
use vstd::prelude::*;

verus! {

/// The call's argument list: a number, then a date and a number in single
/// quotes, each in a capture group of its own.
pub const ARGUMENTS_PATTERN: &'static str = r"\(([0-9]+), '([0-9\-]+)', '([0-9]+)'\)";

/// The capture groups of a match without group 0, which is the whole match.
pub open spec fn captured_values(groups: Seq<Option<Seq<char>>>) -> Seq<Option<Seq<char>>> {
    if groups.len() == 0 {
        groups
    } else {
        groups.skip(1)
    }
}

/// The identifiers that the capture groups of a match hold, bound by
/// position. Every group must have taken part in the match, and there must
/// be three of them.
pub open spec fn arguments_of_captures(captures: Option<Seq<Option<Seq<char>>>>) -> Result<
    (Seq<char>, Seq<char>, Seq<char>),
    ParseError,
> {
    match captures {
        Some(groups) => {
            let values = captured_values(groups);
            if exists|i: int| 0 <= i < values.len() && values[i] is None {
                Err(ParseError::MissingCapture)
            } else if values.len() != 3 {
                Err(ParseError::CaptureCount(values.len() as usize))
            } else {
                Ok((values[0]->0, values[1]->0, values[2]->0))
            }
        },
        None => Err(ParseError::ArgumentsNotFound),
    }
}

/// The identifiers that the argument string `args` holds.
pub open spec fn arguments_in(args: Seq<char>) -> Result<
    (Seq<char>, Seq<char>, Seq<char>),
    ParseError,
> {
    if pattern_accepted(ARGUMENTS_PATTERN@) {
        arguments_of_captures(captures_of(ARGUMENTS_PATTERN@, args))
    } else {
        Err(ParseError::InvalidPattern)
    }
}

/// The answer of the argument parser, with its texts as sequences of characters.
pub open spec fn arguments_view(answer: Result<(String, String, String), ParseError>) -> Result<
    (Seq<char>, Seq<char>, Seq<char>),
    ParseError,
> {
    match answer {
        Ok((id, date, program_id)) => Ok((id@, date@, program_id@)),
        Err(error) => Err(error),
    }
}

/// Binds the capture groups of a match to the id, the date and the program id.
pub fn arguments_from_captures(captures: &Option<Vec<Option<String>>>) -> (answer: Result<
    (String, String, String),
    ParseError,
>)
    ensures
        arguments_view(answer) == arguments_of_captures(captures.deep_view()),
{
    let groups = match captures {
        Some(groups) => groups,
        None => {
            return Err(ParseError::ArgumentsNotFound);
        },
    };
    let ghost values = captured_values(groups.deep_view());
    let first: usize = if groups.len() == 0 {
        0
    } else {
        1
    };
    let mut texts: Vec<String> = Vec::new();
    let mut i: usize = first;
    while i < groups.len()
        invariant
            first <= i <= groups.len(),
            first == (if groups.len() == 0 { 0usize } else { 1usize }),
            captures.deep_view() == Some(groups.deep_view()),
            values == captured_values(groups.deep_view()),
            texts.len() == i - first,
            forall|k: int| 0 <= k < i - first ==> #[trigger] values[k] == Some(texts@[k]@),
        decreases groups.len() - i,
    {
        assert(values[i - first] == groups@[i as int].deep_view());
        match &groups[i] {
            Some(text) => {
                texts.push(text.clone());
            },
            None => {
                assert(0 <= i - first < values.len() && values[i - first] is None);
                return Err(ParseError::MissingCapture);
            },
        }
        i += 1;
    }
    assert(values.len() == texts.len());
    if texts.len() != 3 {
        return Err(ParseError::CaptureCount(texts.len()));
    }
    Ok((texts[0].clone(), texts[1].clone(), texts[2].clone()))
}

/// Reads the id, the date and the program id out of the argument string `args`.
pub fn parse_today_arguments(args: &str) -> (answer: Result<(String, String, String), ParseError>)
    ensures
        arguments_view(answer) == arguments_in(args@),
{
    match regex_captures(ARGUMENTS_PATTERN, args) {
        Ok(captures) => arguments_from_captures(&captures),
        Err(_) => Err(ParseError::InvalidPattern),
    }
}

} // verus!
