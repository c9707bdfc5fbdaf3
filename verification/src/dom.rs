use vstd::prelude::*;

verus! {

#[verifier::external_type_specification]
#[verifier::external_body]
pub struct ExHtml(scraper::Html);

#[verifier::external_type_specification]
#[verifier::external_body]
pub struct ExSelector(scraper::Selector);

#[verifier::external_type_specification]
#[verifier::external_body]
pub struct ExElementRef<'a>(scraper::ElementRef<'a>);

/// Relies on scraper::Selector::parse: compiles a CSS selector group, or
/// rejects selector text that is not valid CSS.
#[verifier::external_body]
pub(crate) fn parse_selector(selectors: &str) -> Option<scraper::Selector> {
    scraper::Selector::parse(selectors).ok()
}

/// Relies on scraper::Html::select: hands back the elements of the document
/// that match the selector, in tree order.
#[verifier::external_body]
pub(crate) fn select_in_document<'a>(
    document: &'a scraper::Html,
    selector: &scraper::Selector,
) -> Vec<scraper::ElementRef<'a>> {
    document.select(selector).collect()
}

/// Relies on scraper::ElementRef::select: hands back the descendants of the
/// element that match the selector, in tree order.
#[verifier::external_body]
pub(crate) fn select_in_element<'a>(
    el: &scraper::ElementRef<'a>,
    selector: &scraper::Selector,
) -> Vec<scraper::ElementRef<'a>> {
    el.select(selector).collect()
}

/// Relies on scraper::ElementRef::attr: the value of the named attribute on
/// the element, if the element carries it.
#[verifier::external_body]
pub(crate) fn attr_value(el: &scraper::ElementRef<'_>, name: &str) -> Option<String> {
    el.attr(name).map(str::to_owned)
}

/// The two attribute values that decide what one scraped day node stands
/// for: its vertical offset within the week column, and its activity level.
/// Each is kept exactly as read, or absent when the node lacks the
/// attribute; all judgement about them happens in the assembly steps.
#[derive(Debug)]
pub struct DayNode {
    /// The raw `y` attribute: the node's vertical pixel offset.
    pub y_attr: Option<String>,
    /// The raw `data-level` attribute: the day's activity level.
    pub level_attr: Option<String>,
}

impl DayNode {
    /// Reads the positional and level attributes off one queried element.
    pub fn from_el(el: &scraper::ElementRef<'_>) -> DayNode {
        DayNode { y_attr: attr_value(el, "y"), level_attr: attr_value(el, "data-level") }
    }
}

} // verus!
