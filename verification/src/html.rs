//! The HTML query engine, as far as this crate relies on it.
//!
//! Parsing and selection are done by the `scraper` crate. Nothing here is
//! proved about it: what it answers is given a name, and the rest of the
//! crate is verified against those names.

use scraper::{Html, Selector};
use vstd::prelude::*;

verus! {

/// The longest page, in bytes, that is handed to the engine. The engine keeps
/// text in buffers whose length is a 32-bit number and stops the program when
/// one overflows, and it may write three bytes for one byte that it reads.
/// This limit keeps every buffer well inside that range.
pub const PAGE_LIMIT: usize = 268_435_456;

/// The longest selector, in bytes, that is handed to the engine. The engine
/// matches a chain of selectors by calling itself once for each link, so the
/// length of a selector bounds the depth of those calls.
pub const SELECTOR_LIMIT: usize = 1024;

/// The length of `text` in bytes, as `str::len` gives it.
pub open spec fn byte_length(text: Seq<char>) -> usize {
    vstd::utf8::encode_utf8(text).len() as usize
}

/// Whether `selector` is of the plain kind that is handed to the engine: no
/// longer than [`SELECTOR_LIMIT`], and without an opening parenthesis.
///
/// A parenthesis opens a selector inside a selector, such as `:has(..)` or
/// `:not(..)`. To match one, the engine calls itself as deep as the page is
/// nested, and nothing bounds that. A plain selector has none, and is matched
/// in as many calls as it has links.
pub open spec fn plain_selector(selector: Seq<char>) -> bool {
    &&& byte_length(selector) <= SELECTOR_LIMIT
    &&& forall|i: int| 0 <= i < selector.len() ==> #[trigger] selector[i] != '('
}

/// Whether `Selector::parse` accepts `selector`.
pub uninterp spec fn selector_accepted(selector: Seq<char>) -> bool;

/// What `ElementRef::text` yields for the first element that `Html::select`
/// finds in `document` for `selector`: the element's descendant text nodes in
/// the order of the tree, or `None` where no element matches.
pub uninterp spec fn text_of_first(document: Seq<char>, selector: Seq<char>) -> Option<
    Seq<Seq<char>>,
>;

/// What `ElementRef::attr` answers for the attribute `name` of the first
/// element that `Html::select` finds in `document` for `selector`: `None`
/// where no element matches, `Some(None)` where the element lacks the
/// attribute.
pub uninterp spec fn attribute_of_first(
    document: Seq<char>,
    selector: Seq<char>,
    name: Seq<char>,
) -> Option<Option<Seq<char>>>;

/// Parses `document` with `Html::parse_document`, takes the first element
/// that `Html::select` yields for `selector`, and copies out the text nodes
/// that `ElementRef::text` walks.
///
/// Trusted: on a document within [`PAGE_LIMIT`] and a plain selector the
/// calls return, the outer `None` comes exactly for the selectors that
/// `Selector::parse` rejects, and the text nodes depend on the document and
/// the selector alone.
#[verifier::external_body]
pub(crate) fn select_text(document: &str, selector: &str) -> (found: Option<Option<Vec<String>>>)
    requires
        byte_length(document@) <= PAGE_LIMIT,
        plain_selector(selector@),
    ensures
        found is Some <==> selector_accepted(selector@),
        found matches Some(text) ==> text.deep_view() == text_of_first(document@, selector@),
{
    let selector = Selector::parse(selector).ok()?;
    let html = Html::parse_document(document);
    let element = html.select(&selector).next();
    Some(element.map(|element| element.text().map(|node| node.to_string()).collect()))
}

/// Parses `document` with `Html::parse_document`, takes the first element
/// that `Html::select` yields for `selector`, and copies out what
/// `ElementRef::attr` answers for `name`.
///
/// Trusted: on a document within [`PAGE_LIMIT`] and a plain selector the
/// calls return, the outer `None` comes exactly for the selectors that
/// `Selector::parse` rejects, and the answer depends on the document, the
/// selector and the attribute's name alone.
#[verifier::external_body]
pub(crate) fn select_attribute(document: &str, selector: &str, name: &str) -> (found: Option<
    Option<Option<String>>,
>)
    requires
        byte_length(document@) <= PAGE_LIMIT,
        plain_selector(selector@),
    ensures
        found is Some <==> selector_accepted(selector@),
        found matches Some(value) ==> value.deep_view() == attribute_of_first(
            document@,
            selector@,
            name@,
        ),
{
    let selector = Selector::parse(selector).ok()?;
    let html = Html::parse_document(document);
    let element = html.select(&selector).next();
    Some(element.map(|element| element.attr(name).map(|value| value.to_string())))
}

} // verus!
