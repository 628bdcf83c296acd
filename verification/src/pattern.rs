//! The regular-expression engine, as far as this crate relies on it.
//!
//! Matching is done by the `regex` crate. Nothing here is proved about the
//! engine: what it answers is given a name, and the rest of the crate is
//! verified against those names.

use regex::Regex;
use vstd::prelude::*;

verus! {

/// The error of `Regex::new`. It is carried, never looked into.
#[verifier::external_type_specification]
#[verifier::external_body]
pub struct ExRegexError(regex::Error);

/// Whether `Regex::new` compiles `pattern`.
pub uninterp spec fn pattern_accepted(pattern: Seq<char>) -> bool;

/// What `Regex::is_match` answers for `text`, on the regex compiled from `pattern`.
pub uninterp spec fn is_match_of(pattern: Seq<char>, text: Seq<char>) -> bool;

/// What `Regex::captures` finds in `text`, on the regex compiled from
/// `pattern`: `None` where nothing matches, else the text of every capture
/// group of the first match, group 0 (the whole match) first, with `None`
/// for a group that took no part in it.
pub uninterp spec fn captures_of(pattern: Seq<char>, text: Seq<char>) -> Option<
    Seq<Option<Seq<char>>>,
>;

/// Compiles `pattern` with `Regex::new` and asks `Regex::is_match` about `text`.
///
/// Trusted: the call fails exactly on the patterns that `Regex::new` rejects,
/// and the answer depends on the pattern and the text alone.
#[verifier::external_body]
pub(crate) fn regex_is_match(pattern: &str, text: &str) -> (r: Result<bool, regex::Error>)
    ensures
        r is Ok <==> pattern_accepted(pattern@),
        r matches Ok(found) ==> found == is_match_of(pattern@, text@),
{
    match Regex::new(pattern) {
        Ok(regex) => Ok(regex.is_match(text)),
        Err(error) => Err(error),
    }
}

/// Compiles `pattern` with `Regex::new` and runs `Regex::captures` on `text`,
/// copying the text of each capture group out of the result.
///
/// Trusted: the call fails exactly on the patterns that `Regex::new` rejects,
/// and the groups depend on the pattern and the text alone.
#[verifier::external_body]
pub(crate) fn regex_captures(pattern: &str, text: &str) -> (r: Result<
    Option<Vec<Option<String>>>,
    regex::Error,
>)
    ensures
        r is Ok <==> pattern_accepted(pattern@),
        r matches Ok(found) ==> found.deep_view() == captures_of(pattern@, text@),
{
    match Regex::new(pattern) {
        Ok(regex) => Ok(regex.captures(text).map(|caps| {
            caps.iter().map(|group| group.map(|m| m.as_str().to_string())).collect()
        })),
        Err(error) => Err(error),
    }
}

} // verus!
