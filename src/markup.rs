//! The page scraper that the forecast is read with.
//!
//! A parsed page, a parsed selector and an element found on a page each
//! carry, as ghost state, the text they stand for: the page's source, the
//! selector's text, and the page's source with the chain of selectors that
//! led to the element (the first match of the first selector in the page,
//! then the first match of each further one within the element before).
//! What the scraper finds is then named over those texts alone.

use scraper::{ElementRef, Html, Selector};
use vstd::prelude::*;

verus! {

#[verifier::external_type_specification]
#[verifier::external_body]
pub struct ExHtml(scraper::Html);

#[verifier::external_type_specification]
#[verifier::external_body]
pub struct ExSelector(scraper::Selector);

#[verifier::external_type_specification]
#[verifier::external_body]
pub struct ExElementRef<'a>(scraper::ElementRef<'a>);

/// Whether the scraper accepts `text` as a list of CSS selectors.
pub uninterp spec fn selector_accepted(text: Seq<char>) -> bool;

/// Whether the page parsed from `source` has an element that `selector`
/// matches.
pub uninterp spec fn found_in_document(source: Seq<char>, selector: Seq<char>) -> bool;

/// Whether the element reached by `path` on the page parsed from `source`
/// has a descendant that `selector` matches.
pub uninterp spec fn found_within(
    source: Seq<char>,
    path: Seq<Seq<char>>,
    selector: Seq<char>,
) -> bool;

/// The value of the attribute `name` of the element reached by `path` on
/// the page parsed from `source`, if it has that attribute.
pub uninterp spec fn attribute_value(
    source: Seq<char>,
    path: Seq<Seq<char>>,
    name: Seq<char>,
) -> Option<Seq<char>>;

/// A parsed page.
pub struct Page {
    document: Html,
    source: Ghost<Seq<char>>,
}

/// A parsed selector.
pub struct Pattern {
    selector: Selector,
    text: Ghost<Seq<char>>,
}

/// An element found on a page.
pub struct Found<'a> {
    element: ElementRef<'a>,
    source: Ghost<Seq<char>>,
    path: Ghost<Seq<Seq<char>>>,
}

impl Page {
    /// The text the page was parsed from.
    pub closed spec fn source(&self) -> Seq<char> {
        self.source@
    }
}

impl Pattern {
    /// The text the selector was parsed from.
    pub closed spec fn text(&self) -> Seq<char> {
        self.text@
    }
}

impl<'a> Found<'a> {
    /// The text of the page the element is on.
    pub closed spec fn source(&self) -> Seq<char> {
        self.source@
    }

    /// The selectors that led to the element.
    pub closed spec fn path(&self) -> Seq<Seq<char>> {
        self.path@
    }
}

/// Relies on scraper's `Html::parse_document`, which parses any text into a
/// document tree (malformed markup is repaired, never refused).
#[verifier::external_body]
pub(crate) fn parse_page(html: &str) -> (r: Page)
    ensures
        r.source() == html@,
{
    Page { document: Html::parse_document(html), source: Ghost(html@) }
}

/// Relies on scraper's `Selector::parse`: whether a selector list is
/// accepted depends on its text alone. The scraper's error is dropped. The
/// parser recurses once per nested selector, so only short texts are taken.
#[verifier::external_body]
pub(crate) fn parse_pattern(text: &str) -> (r: Option<Pattern>)
    requires
        text@.len() <= 16,
    ensures
        r is Some <==> selector_accepted(text@),
        r matches Some(p) ==> p.text() == text@,
{
    Selector::parse(text).ok().map(|selector| Pattern { selector, text: Ghost(text@) })
}

/// Relies on scraper's `Html::select`: the first element of the page, in
/// the order the parsed tree holds its nodes, that the selector matches.
#[verifier::external_body]
pub(crate) fn first_in_page<'a>(page: &'a Page, pattern: &Pattern) -> (r: Option<Found<'a>>)
    ensures
        r is Some <==> found_in_document(page.source(), pattern.text()),
        r matches Some(f) ==> f.source() == page.source() && f.path() == seq![pattern.text()],
{
    page.document.select(&pattern.selector).next().map(
        |element| Found { element, source: Ghost(page.source@), path: Ghost(seq![pattern.text@]) },
    )
}

/// Relies on scraper's `ElementRef::select`: the first descendant of the
/// element, in the order the parsed tree holds its nodes, that the selector
/// matches.
#[verifier::external_body]
pub(crate) fn first_within<'a>(found: &Found<'a>, pattern: &Pattern) -> (r: Option<Found<'a>>)
    ensures
        r is Some <==> found_within(found.source(), found.path(), pattern.text()),
        r matches Some(f) ==> f.source() == found.source() && f.path() == found.path().push(
            pattern.text(),
        ),
{
    found.element.select(&pattern.selector).next().map(
        |element| Found {
            element,
            source: Ghost(found.source@),
            path: Ghost(found.path@.push(pattern.text@)),
        },
    )
}

/// Relies on scraper's `ElementRef::attr`: the value of the named attribute
/// of the element, if it has one.
#[verifier::external_body]
pub(crate) fn attribute(found: &Found, name: &str) -> (r: Option<String>)
    ensures
        match attribute_value(found.source(), found.path(), name@) {
            None => r is None,
            Some(v) => r matches Some(s) && s@ == v,
        },
{
    found.element.attr(name).map(String::from)
}

} // verus!
