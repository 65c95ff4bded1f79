//! HTML documents, read through the `scraper` crate.
//!
//! Parsing and selector matching are `scraper`'s work. What it hands back is
//! named here, and the rest of the library states its results over those names.

use vstd::prelude::*;

verus! {

/// `scraper::Html`, a parsed document.
#[verifier::external_type_specification]
#[verifier::external_body]
pub struct ExHtml(scraper::Html);

/// `scraper::Selector`, a parsed CSS selector group.
#[verifier::external_type_specification]
#[verifier::external_body]
pub struct ExSelector(scraper::Selector);

/// `scraper::ElementRef`, a reference to one element of a document.
#[verifier::external_type_specification]
#[verifier::external_body]
pub struct ExElementRef<'a>(scraper::ElementRef<'a>);

/// The document that `scraper` reads from an HTML text.
pub uninterp spec fn html_document(text: Seq<char>) -> scraper::Html;

/// The selector that a CSS text denotes, where it denotes one.
pub uninterp spec fn css_selector(css: Seq<char>) -> Option<scraper::Selector>;

/// The elements of a document that match a selector, in the order in which
/// `scraper` yields them.
pub uninterp spec fn document_matches(
    document: &scraper::Html,
    selector: scraper::Selector,
) -> Seq<scraper::ElementRef<'_>>;

/// The first descendant of an element, in document order, that matches a selector.
pub uninterp spec fn first_match(
    scope: scraper::ElementRef<'_>,
    selector: scraper::Selector,
) -> Option<scraper::ElementRef<'_>>;

/// The text nodes below an element, concatenated in document order.
pub uninterp spec fn element_text(element: scraper::ElementRef<'_>) -> Seq<char>;

/// The value of an attribute of an element, where the element has it.
pub uninterp spec fn element_attribute(
    element: scraper::ElementRef<'_>,
    name: Seq<char>,
) -> Option<Seq<char>>;

/// Calls `Html::parse_document`, which reads any text without failing and
/// depends on nothing but the text.
#[verifier::external_body]
pub(crate) fn parse_document(text: &str) -> (document: scraper::Html)
    ensures
        document == html_document(text@),
{
    scraper::Html::parse_document(text)
}

/// Calls `Selector::parse`, which depends on nothing but the text; `None`
/// stands for its error.
#[verifier::external_body]
pub(crate) fn parse_selector(css: &str) -> (selector: Option<scraper::Selector>)
    ensures
        selector == css_selector(css@),
{
    scraper::Selector::parse(css).ok()
}

/// Calls `Html::select` and collects what the iterator yields: the matching
/// elements, in the order in which `scraper` yields them.
#[verifier::external_body]
pub(crate) fn select_all<'a>(
    document: &'a scraper::Html,
    selector: &scraper::Selector,
) -> (found: Vec<scraper::ElementRef<'a>>)
    ensures
        found@ == document_matches(document, *selector),
{
    document.select(selector).collect()
}

/// Calls `ElementRef::select` and takes the first element that the iterator yields.
#[verifier::external_body]
pub(crate) fn select_first<'a>(
    scope: &scraper::ElementRef<'a>,
    selector: &scraper::Selector,
) -> (found: Option<scraper::ElementRef<'a>>)
    ensures
        found == first_match(*scope, *selector),
{
    scope.select(selector).next()
}

/// Calls `ElementRef::text` and joins the text nodes that the iterator yields.
#[verifier::external_body]
pub(crate) fn text_of(element: &scraper::ElementRef<'_>) -> (text: String)
    ensures
        text@ == element_text(*element),
{
    element.text().collect()
}

/// Calls `ElementRef::attr`.
#[verifier::external_body]
pub(crate) fn attribute_of(element: &scraper::ElementRef<'_>, name: &str) -> (value: Option<String>)
    ensures
        match value {
            Some(v) => element_attribute(*element, name@) == Some(v@),
            None => element_attribute(*element, name@) is None,
        },
{
    element.attr(name).map(String::from)
}

} // verus!
