//! From the body of a response to the menu and to the arguments it carries.

use crate::arguments::{arguments_in, arguments_view, parse_today_arguments};
use crate::builder::{menu_in, menu_view, parse_text_nodes};
use crate::error::ParseError;
use crate::food::{Menu, MenuView};
use crate::html::{
    attribute_of_first, byte_length, plain_selector, select_attribute, select_text,
    selector_accepted, text_of_first, PAGE_LIMIT, SELECTOR_LIMIT,
};
use vstd::prelude::*;
use vstd::string::StrSliceExecFns;

verus! {

/// The container whose text nodes hold the menu.
pub const MENU_SELECTOR: &'static str = "div.modal-body";

/// The link behind the details button.
pub const DETAILS_SELECTOR: &'static str = "div.btn-detalii > a";

/// The attribute of the details link that carries the arguments.
pub const DETAILS_ATTRIBUTE: &'static str = "onclick";

/// Whether `selector` can be used: it is plain and the engine accepts it.
pub open spec fn selector_usable(selector: Seq<char>) -> bool {
    plain_selector(selector) && selector_accepted(selector)
}

/// The two selectors of this crate are plain.
pub proof fn lemma_page_selectors_are_plain()
    ensures
        plain_selector(MENU_SELECTOR@),
        plain_selector(DETAILS_SELECTOR@),
{
    reveal_strlit("div.modal-body");
    reveal_strlit("div.btn-detalii > a");
    vstd::utf8::is_ascii_chars_encode_utf8(MENU_SELECTOR@);
    vstd::utf8::is_ascii_chars_encode_utf8(DETAILS_SELECTOR@);
}

/// The text nodes of the first element of the page `body` that `selector`
/// matches. The page must be no longer than [`PAGE_LIMIT`], the selector
/// usable, and the page must have such an element.
pub open spec fn text_nodes_on_page(body: Seq<char>, selector: Seq<char>) -> Result<
    Seq<Seq<char>>,
    ParseError,
> {
    if byte_length(body) > PAGE_LIMIT {
        Err(ParseError::PageTooLong)
    } else if !selector_usable(selector) {
        Err(ParseError::InvalidSelector)
    } else {
        match text_of_first(body, selector) {
            Some(nodes) => Ok(nodes),
            None => Err(ParseError::MissingElement),
        }
    }
}

/// The value of the attribute `name` of the first element of the page `body`
/// that `selector` matches. The page must be no longer than [`PAGE_LIMIT`],
/// the selector usable, the page must have such an element, and the element
/// the attribute.
pub open spec fn attribute_on_page(
    body: Seq<char>,
    selector: Seq<char>,
    name: Seq<char>,
) -> Result<Seq<char>, ParseError> {
    if byte_length(body) > PAGE_LIMIT {
        Err(ParseError::PageTooLong)
    } else if !selector_usable(selector) {
        Err(ParseError::InvalidSelector)
    } else {
        match attribute_of_first(body, selector, name) {
            Some(Some(value)) => Ok(value),
            Some(None) => Err(ParseError::MissingAttribute),
            None => Err(ParseError::MissingElement),
        }
    }
}

/// The menu for `date` on the page `body`: the text nodes of the menu's
/// container, read as a menu.
pub open spec fn menu_on_page(date: Seq<char>, body: Seq<char>) -> Result<MenuView, ParseError> {
    match text_nodes_on_page(body, MENU_SELECTOR@) {
        Ok(nodes) => menu_in(date, nodes),
        Err(error) => Err(error),
    }
}

/// The arguments on the page `body`: the text of the details link's
/// attribute, read as an argument list.
pub open spec fn arguments_on_page(body: Seq<char>) -> Result<
    (Seq<char>, Seq<char>, Seq<char>),
    ParseError,
> {
    match attribute_on_page(body, DETAILS_SELECTOR@, DETAILS_ATTRIBUTE@) {
        Ok(args) => arguments_in(args),
        Err(error) => Err(error),
    }
}

/// The answer of [`text_nodes_of`], with its texts as sequences of characters.
pub open spec fn nodes_view(answer: Result<Vec<String>, ParseError>) -> Result<
    Seq<Seq<char>>,
    ParseError,
> {
    match answer {
        Ok(nodes) => Ok(nodes.deep_view()),
        Err(error) => Err(error),
    }
}

/// The answer of [`attribute_of`], with its text as a sequence of characters.
pub open spec fn value_view(answer: Result<String, ParseError>) -> Result<Seq<char>, ParseError> {
    match answer {
        Ok(value) => Ok(value@),
        Err(error) => Err(error),
    }
}

/// Whether `selector` is of the plain kind that is handed to the engine.
pub fn is_plain_selector(selector: &str) -> (plain: bool)
    ensures
        plain == plain_selector(selector@),
{
    if selector.len() > SELECTOR_LIMIT {
        return false;
    }
    let len = selector.unicode_len();
    let mut i: usize = 0;
    while i < len
        invariant
            i <= len,
            len == selector@.len(),
            byte_length(selector@) <= SELECTOR_LIMIT,
            forall|k: int| 0 <= k < i ==> #[trigger] selector@[k] != '(',
        decreases len - i,
    {
        if selector.get_char(i) == '(' {
            return false;
        }
        i += 1;
    }
    true
}

/// Collects the text nodes of the first element of `body` that `selector` matches.
pub fn text_nodes_of(body: &str, selector: &str) -> (answer: Result<Vec<String>, ParseError>)
    ensures
        nodes_view(answer) == text_nodes_on_page(body@, selector@),
{
    if body.len() > PAGE_LIMIT {
        return Err(ParseError::PageTooLong);
    }
    if !is_plain_selector(selector) {
        return Err(ParseError::InvalidSelector);
    }
    match select_text(body, selector) {
        Some(Some(nodes)) => Ok(nodes),
        Some(None) => Err(ParseError::MissingElement),
        None => Err(ParseError::InvalidSelector),
    }
}

/// Reads the attribute `name` of the first element of `body` that `selector` matches.
pub fn attribute_of(body: &str, selector: &str, name: &str) -> (answer: Result<
    String,
    ParseError,
>)
    ensures
        value_view(answer) == attribute_on_page(body@, selector@, name@),
{
    if body.len() > PAGE_LIMIT {
        return Err(ParseError::PageTooLong);
    }
    if !is_plain_selector(selector) {
        return Err(ParseError::InvalidSelector);
    }
    match select_attribute(body, selector, name) {
        Some(Some(Some(value))) => Ok(value),
        Some(Some(None)) => Err(ParseError::MissingAttribute),
        Some(None) => Err(ParseError::MissingElement),
        None => Err(ParseError::InvalidSelector),
    }
}

/// Builds the menu for `date` from the body of the details response.
pub fn today_menu_from_page(date: &str, body: &str) -> (answer: Result<Menu, ParseError>)
    ensures
        menu_view(answer) == menu_on_page(date@, body@),
{
    match text_nodes_of(body, MENU_SELECTOR) {
        Ok(nodes) => parse_text_nodes(date, &nodes),
        Err(error) => Err(error),
    }
}

/// Reads the id, the date and the program id from the body of the program page.
pub fn today_arguments_from_page(body: &str) -> (answer: Result<
    (String, String, String),
    ParseError,
>)
    ensures
        arguments_view(answer) == arguments_on_page(body@),
{
    match attribute_of(body, DETAILS_SELECTOR, DETAILS_ATTRIBUTE) {
        Ok(args) => parse_today_arguments(args.as_str()),
        Err(error) => Err(error),
    }
}

} // verus!
