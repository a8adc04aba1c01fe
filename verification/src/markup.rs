//! Parsed markup: documents, elements and selectors of the `scraper` crate.
//!
//! Parsing and selecting are `scraper`'s work. What this module states of
//! them is believed, not proved: each result gets a name here, and the
//! contracts of the library say what becomes of the named results.

use scraper::ElementRef;
use scraper::error::SelectorErrorKind;
use scraper::Html;
use scraper::Selector;
use vstd::prelude::*;

verus! {

/// A parsed document, `scraper::Html`. In contracts it stands for the tree
/// of nodes that it holds.
#[verifier::external_type_specification]
#[verifier::external_body]
pub struct ExHtml(Html);

/// A compiled group of CSS selectors, `scraper::Selector`. In contracts it
/// stands for the selectors that it holds.
#[verifier::external_type_specification]
#[verifier::external_body]
pub struct ExSelector(Selector);

/// The reason why a text is no selector, `scraper::error::SelectorErrorKind`.
#[verifier::external_type_specification]
#[verifier::external_body]
pub struct ExSelectorErrorKind(SelectorErrorKind);

/// An element of a parsed document, `scraper::ElementRef`. In contracts it
/// stands for the tree of its document and the element's place in it, not
/// for where the tree lies in memory.
#[verifier::external_type_specification]
#[verifier::external_body]
pub struct ExElementRef<'a>(ElementRef<'a>);

/// The longest text, in characters, that this library hands to a parser.
/// The parsers hold a text in buffers of at most `u32::MAX` bytes and count
/// its lines in 32 bits; a character takes four bytes at most.
pub const TEXT_LIMIT: usize = 0x3FFF_FFFF;

/// Whether `text` is short enough for the parsers.
pub open spec fn within_limit(text: Seq<char>) -> bool {
    text.len() <= TEXT_LIMIT
}

/// The document that `Html::parse_document` builds from `markup`.
pub uninterp spec fn parsed_document(markup: Seq<char>) -> Html;

/// The selector that `Selector::parse` compiles `css` to; `None` where `css`
/// is no selector.
pub uninterp spec fn parsed_selector(css: Seq<char>) -> Option<Selector>;

/// The elements that `Html::select` yields for `selector` in `document`, in
/// the order in which it yields them.
pub uninterp spec fn document_matches(document: Html, selector: Selector) -> Seq<
    ElementRef<'static>,
>;

/// The elements that `ElementRef::select` yields for `selector` below
/// `scope`, in the order in which it yields them: the order of the document.
pub uninterp spec fn element_matches(scope: ElementRef<'_>, selector: Selector) -> Seq<
    ElementRef<'_>,
>;

/// The text runs below `element` that `ElementRef::text` yields, in the
/// order in which it yields them: the order of the document.
pub uninterp spec fn text_runs(element: ElementRef<'_>) -> Seq<Seq<char>>;

/// The value of the attribute `name` of `element`, as `ElementRef::attr`
/// returns it; `None` where `element` has no such attribute.
pub uninterp spec fn attribute(element: ElementRef<'_>, name: Seq<char>) -> Option<Seq<char>>;

/// `Html::parse_document` reports no error, and what it builds depends on
/// the markup alone. Markup beyond the limit is left out: the buffer that
/// the parser copies it to refuses more than `u32::MAX` bytes.
pub assume_specification[ Html::parse_document ](document: &str) -> (html: Html)
    requires
        within_limit(document@),
    ensures
        html == parsed_document(document@),
;

/// `Selector::parse` succeeds or fails by the text alone, and the selector
/// it returns depends on the text alone. A text beyond the limit is left
/// out: the tokenizer counts its lines in 32 bits.
pub assume_specification[ Selector::parse ](selectors: &str) -> (outcome: Result<
    Selector,
    SelectorErrorKind,
>)
    requires
        within_limit(selectors@),
    ensures
        match outcome {
            Ok(selector) => parsed_selector(selectors@) == Some(selector),
            Err(_) => parsed_selector(selectors@) is None,
        },
;

/// Collects what `Html::select` yields: the elements of `document` that
/// match `selector`.
#[verifier::external_body]
pub(crate) fn select_in_document<'a>(document: &'a Html, selector: &Selector) -> (found: Vec<
    ElementRef<'a>,
>)
    ensures
        found@ == document_matches(*document, *selector),
{
    document.select(selector).collect()
}

/// Collects what `ElementRef::select` yields: the elements below `scope`
/// that match `selector`.
#[verifier::external_body]
pub(crate) fn select_in_element<'a>(scope: ElementRef<'a>, selector: &Selector) -> (found: Vec<
    ElementRef<'a>,
>)
    ensures
        found@ == element_matches(scope, *selector),
{
    scope.select(selector).collect()
}

/// Collects what `ElementRef::text` yields: the text runs below `element`.
#[verifier::external_body]
pub(crate) fn text_runs_of<'a>(element: ElementRef<'a>) -> (runs: Vec<&'a str>)
    ensures
        runs@.len() == text_runs(element).len(),
        forall|i: int| 0 <= i < runs@.len() ==> (#[trigger] runs@[i])@ == text_runs(element)[i],
{
    element.text().collect()
}

/// Tells whether `text` is short enough for the parsers.
pub fn fits_limit(text: &str) -> (fits: bool)
    ensures
        fits == within_limit(text@),
{
    text.unicode_len() <= TEXT_LIMIT
}

/// Calls `ElementRef::attr`: the value of the attribute `name` of `element`.
#[verifier::external_body]
pub(crate) fn attribute_of<'a>(element: ElementRef<'a>, name: &str) -> (value: Option<&'a str>)
    ensures
        match value {
            Some(text) => attribute(element, name@) == Some(text@),
            None => attribute(element, name@) is None,
        },
{
    element.attr(name)
}

} // verus!
