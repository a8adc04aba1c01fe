//! A field of the markup: the text of an element that a selector finds.

use crate::markup::element_matches;
use crate::markup::select_in_element;
use crate::markup::text_runs;
use crate::markup::text_runs_of;
use scraper::ElementRef;
use scraper::Selector;
use vstd::prelude::*;

verus! {

/// The characters of `text`, where there is a text.
pub open spec fn text_view(text: Option<String>) -> Option<Seq<char>> {
    match text {
        Some(run) => Some(run@),
        None => None,
    }
}

/// The first text run of the first element below `block` that matches
/// `selector`; `None` where no element matches, or the first has no text.
pub open spec fn field_text(block: ElementRef<'_>, selector: Selector) -> Option<Seq<char>> {
    let found = element_matches(block, selector);
    if found.len() == 0 || text_runs(found[0]).len() == 0 {
        None
    } else {
        Some(text_runs(found[0])[0])
    }
}

/// Reads the first text run of the first element below `block` that matches
/// `selector`.
pub fn read_field(block: ElementRef<'_>, selector: &Selector) -> (text: Option<String>)
    ensures
        text_view(text) == field_text(block, *selector),
{
    let found = select_in_element(block, selector);
    if found.len() == 0 {
        return None;
    }
    let runs = text_runs_of(found[0]);
    if runs.len() == 0 {
        None
    } else {
        Some(runs[0].to_owned())
    }
}

} // verus!
