//! Why a page could not be turned into a menu.

use vstd::prelude::*;

verus! {

/// One of the four attributes of a food record.
#[derive(Clone, Copy, Debug, PartialEq, Eq, Structural)]
pub enum Field {
    Description,
    Quantity,
    Calories,
    Proteins,
}

/// A fatal finding about the page. None of them is recoverable: either a
/// whole, valid menu comes out or one of these does.
#[derive(Clone, Copy, Debug, PartialEq, Eq, Structural)]
pub enum ParseError {
    /// The regular-expression engine rejected a pattern.
    InvalidPattern,
    /// A pattern picked out a number that does not read as a `u32`.
    NotANumber,
    /// A field was found again before the record it belongs to was complete.
    DuplicateField(Field),
    /// All four fields were found, but this one is empty or zero.
    InvalidRecord(Field),
    /// The input ended while a record was only partly assembled.
    Truncated,
    /// The page is longer than the HTML engine is given to read.
    PageTooLong,
    /// A selector is not of the plain kind that is handed to the selector
    /// engine, or the engine rejected it.
    InvalidSelector,
    /// The page has no element that the selector matches.
    MissingElement,
    /// The selected element lacks the attribute that carries the arguments.
    MissingAttribute,
    /// The argument string does not have the expected shape.
    ArgumentsNotFound,
    /// A capture group of the argument pattern took no part in the match.
    MissingCapture,
    /// The argument pattern captured this many values instead of three.
    CaptureCount(usize),
}

} // verus!
