//! The boundary to the HTML engine: documents, element handles and compiled
//! selectors are carried through as opaque values, and every question asked of
//! them goes through one of the functions below.

use scraper::{ElementRef, Html, Selector};
use vstd::prelude::*;

verus! {

/// `scraper::Html`, a parsed document, carried through as an opaque value.
#[verifier::external_type_specification]
#[verifier::external_body]
pub struct ExHtml(Html);

/// `scraper::Selector`, a compiled selector, carried through as an opaque
/// value.
#[verifier::external_type_specification]
#[verifier::external_body]
pub struct ExSelector(Selector);

/// `scraper::ElementRef`, a handle to one element of a document, carried
/// through as an opaque value.
#[verifier::external_type_specification]
#[verifier::external_body]
pub struct ExElementRef<'a>(ElementRef<'a>);

/// The document that the HTML engine builds from a source text.
pub uninterp spec fn parsed_document(source: Seq<char>) -> Html;

/// The compiled form of a selector text, where the text is a valid selector.
pub uninterp spec fn compiled_selector(css: Seq<char>) -> Option<Selector>;

/// The elements of a document that a selector matches, in the engine's order.
pub uninterp spec fn document_selection(document: &Html, selector: Selector) -> Seq<ElementRef<'_>>;

/// The descendants of an element that a selector matches, in document order.
pub uninterp spec fn element_selection(scope: ElementRef<'_>, selector: Selector) -> Seq<ElementRef<'_>>;

/// The concatenated text of all text nodes below an element.
pub uninterp spec fn element_text(element: ElementRef<'_>) -> Seq<char>;

/// The value of a named attribute of an element, if it has that attribute.
pub uninterp spec fn element_attribute(element: ElementRef<'_>, name: Seq<char>) -> Option<Seq<char>>;

/// `Html::parse_document`: builds the document tree of a source text. Parsing
/// never fails; malformed markup is repaired by the engine.
#[verifier::external_body]
pub(crate) fn parse_document(source: &str) -> (document: Html)
    ensures
        document == parsed_document(source@),
{
    Html::parse_document(source)
}

/// `Selector::parse`: compiles a selector text, `None` where it is not valid.
#[verifier::external_body]
pub(crate) fn compile_selector(css: &str) -> (selector: Option<Selector>)
    ensures
        selector == compiled_selector(css@),
{
    Selector::parse(css).ok()
}

/// `Html::select`: every element of the document that the selector matches.
#[verifier::external_body]
pub(crate) fn select_in_document<'a>(document: &'a Html, selector: &Selector) -> (found: Vec<ElementRef<'a>>)
    ensures
        found@ == document_selection(document, *selector),
{
    document.select(selector).collect()
}

/// `ElementRef::select`: every descendant of `scope` that the selector matches.
#[verifier::external_body]
pub(crate) fn select_in_element<'a>(scope: &ElementRef<'a>, selector: &Selector) -> (found: Vec<ElementRef<'a>>)
    ensures
        found@ == element_selection(*scope, *selector),
{
    scope.select(selector).collect()
}

/// `ElementRef::text`: the text nodes below the element, concatenated.
#[verifier::external_body]
pub(crate) fn text_of(element: &ElementRef<'_>) -> (text: String)
    ensures
        text@ == element_text(*element),
{
    element.text().collect()
}

/// `ElementRef::attr`: the value of the attribute `name`, if present.
#[verifier::external_body]
pub(crate) fn attribute_of(element: &ElementRef<'_>, name: &str) -> (value: Option<String>)
    ensures
        value is Some == element_attribute(*element, name@) is Some,
        value matches Some(v) ==> v@ == element_attribute(*element, name@)->0,
{
    element.attr(name).map(String::from)
}

} // verus!
