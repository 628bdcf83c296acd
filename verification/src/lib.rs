//! Turns the text fragments of a scraped meal-plan page into validated food
//! records, and extracts the identifiers that select the plan of the day.
//!
//! A page lists each food as a handful of text fragments: a description, a
//! quantity, the calories and the proteins, in no fixed order. The
//! [`matchers`] recognise one field each, the [`accumulator`] assembles the
//! record in progress and rejects a field that comes twice, and the
//! [`builder`] walks the fragments and collects the records into a
//! [`food::Menu`]. [`page`] leads from the body of a response to the menu and
//! to the [`arguments`] that the page carries.
//!
//! Regular expressions and HTML are left to the `regex` and `scraper` crates.
//! The modules [`pattern`] and [`html`] hold the calls into them, and give
//! what they answer a name; everything else is verified against those names.

pub mod accumulator;
pub mod arguments;
pub mod builder;
pub mod error;
pub mod fields;
pub mod food;
pub mod html;
pub mod matchers;
pub mod number;
pub mod page;
pub mod pattern;
