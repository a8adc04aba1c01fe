//! The search result extractor: from the markup of a results page to the
//! companies that it lists.
//!
//! This extractor is tolerant: an entry that lacks its label, or whose
//! action holds no quoted path, is passed over in silence.

use crate::field::field_text;
use crate::field::read_field;
use crate::field::text_view;
use crate::guarantees::lemma_candidates_len;
use crate::layout::ACTION_ATTRIBUTE;
use crate::layout::BASE_URL;
use crate::layout::PATH_GROUP;
use crate::layout::SearchLayout;
use crate::markup::attribute;
use crate::markup::attribute_of;
use crate::markup::document_matches;
use crate::markup::parsed_document;
use crate::markup::select_in_document;
use crate::markup::within_limit;
use crate::model::Company;
use crate::model::company_views;
use crate::model::CompanyView;
use crate::pattern::capture_group;
use crate::pattern::captured_group;
use regex::Regex;
use scraper::ElementRef;
use scraper::Html;
use vstd::prelude::*;
use vstd::string::StringExecFns;

verus! {

/// What the markup of one entry of the search results offers.
#[derive(Debug, PartialEq, Eq)]
pub struct SearchEntry {
    /// The first text run of the label; `None` where the entry has no
    /// label, or one without text.
    pub label: Option<String>,
    /// The path in the first pair of single quotes of the entry's action;
    /// `None` where the entry has no action, or one without a quoted path.
    pub path: Option<String>,
}

/// The mathematical value of a [`SearchEntry`].
pub struct SearchEntryView {
    pub label: Option<Seq<char>>,
    pub path: Option<Seq<char>>,
}

impl View for SearchEntry {
    type V = SearchEntryView;

    open spec fn view(&self) -> SearchEntryView {
        SearchEntryView { label: text_view(self.label), path: text_view(self.path) }
    }
}

/// The values of the entries of `entries`, in order.
pub open spec fn entry_views(entries: Seq<SearchEntry>) -> Seq<SearchEntryView> {
    Seq::new(entries.len(), |i: int| entries[i]@)
}

// Reading: what the parsed markup offers.

/// The path that `pattern` finds in the action of `entry`; `None` where the
/// entry has no action, or `pattern` finds no path in it.
pub open spec fn action_path(entry: ElementRef<'_>, pattern: Regex) -> Option<Seq<char>> {
    match attribute(entry, ACTION_ATTRIBUTE@) {
        Some(action) => captured_group(pattern, action, PATH_GROUP@),
        None => None,
    }
}

/// What the entry `entry` offers.
pub open spec fn entry_markup(entry: ElementRef<'_>, layout: SearchLayout) -> SearchEntryView {
    SearchEntryView {
        label: field_text(entry, layout.label),
        path: action_path(entry, layout.path),
    }
}

/// What the entries `entries` offer, entry by entry.
pub open spec fn entries_markup(entries: Seq<ElementRef<'_>>, layout: SearchLayout) -> Seq<
    SearchEntryView,
> {
    Seq::new(entries.len(), |i: int| entry_markup(entries[i], layout))
}

/// What the entries of the document that `markup` parses to offer, in the
/// order in which the document yields them.
pub open spec fn page_entries(markup: Seq<char>, layout: SearchLayout) -> Seq<SearchEntryView> {
    entries_markup(document_matches(parsed_document(markup), layout.entry), layout)
}

/// Reads the path that `pattern` finds in the action of `entry`.
pub fn read_action_path(entry: ElementRef<'_>, pattern: &Regex) -> (path: Option<String>)
    ensures
        text_view(path) == action_path(entry, *pattern),
{
    match attribute_of(entry, ACTION_ATTRIBUTE) {
        None => None,
        Some(action) => match capture_group(pattern, action, PATH_GROUP) {
            Some(path) => Some(path.to_owned()),
            None => None,
        },
    }
}

/// Reads what the entry `entry` offers.
pub fn read_entry(entry: ElementRef<'_>, layout: &SearchLayout) -> (read: SearchEntry)
    ensures
        read@ == entry_markup(entry, *layout),
{
    let label = read_field(entry, &layout.label);
    let path = read_action_path(entry, &layout.path);
    SearchEntry { label, path }
}

/// Reads what the entries `entries` offer, in their order.
pub fn read_entries(entries: &Vec<ElementRef<'_>>, layout: &SearchLayout) -> (read: Vec<
    SearchEntry,
>)
    ensures
        entry_views(read@) == entries_markup(entries@, *layout),
{
    let mut read: Vec<SearchEntry> = Vec::new();
    let mut i: usize = 0;
    while i < entries.len()
        invariant
            i <= entries.len(),
            read.len() == i,
            forall|j: int| 0 <= j < i ==> read[j]@ == entry_markup(entries[j], *layout),
        decreases entries.len() - i,
    {
        read.push(read_entry(entries[i], layout));
        i = i + 1;
    }
    assert(entry_views(read@) =~= entries_markup(entries@, *layout));
    read
}

// Building: the candidates that the entries make.

/// The candidate that `entry` makes: a company under the entry's label,
/// with its path below the site's origin as the address of its page, where
/// the entry offers both; no candidate where it lacks either.
pub open spec fn candidate(entry: SearchEntryView) -> Option<CompanyView> {
    if entry.label is Some && entry.path is Some {
        Some(
            CompanyView {
                name: entry.label->0,
                url: BASE_URL@ + entry.path->0,
                children: Seq::empty(),
                board: None,
            },
        )
    } else {
        None
    }
}

/// The candidates that `entries` make, in the order of the entries that
/// make one.
pub open spec fn candidates(entries: Seq<SearchEntryView>) -> Seq<CompanyView> {
    entries.filter_map(|entry: SearchEntryView| candidate(entry))
}

/// The value of a candidate, where there is one.
pub open spec fn candidate_view(found: Option<Company>) -> Option<CompanyView> {
    match found {
        Some(company) => Some(company@),
        None => None,
    }
}

/// Makes the candidate of `entry`.
pub fn candidate_from(entry: &SearchEntry) -> (found: Option<Company>)
    ensures
        candidate_view(found) == candidate(entry@),
{
    match &entry.label {
        None => None,
        Some(label) => match &entry.path {
            None => None,
            Some(path) => {
                let mut url = BASE_URL.to_owned();
                url.append(path.as_str());
                Some(Company::new(label.clone(), url))
            },
        },
    }
}

/// Makes the candidates of `entries`: one for each entry that offers label
/// and path, in the order of the entries.
pub fn candidates_from(entries: &Vec<SearchEntry>) -> (found: Vec<Company>)
    ensures
        company_views(found@) == candidates(entry_views(entries@)),
        found.len() <= entries.len(),
{
    proof {
        lemma_candidates_len(entry_views(entries@));
    }
    let ghost views = entry_views(entries@);
    let ghost make = |entry: SearchEntryView| candidate(entry);
    let mut found: Vec<Company> = Vec::new();
    let mut i: usize = 0;
    while i < entries.len()
        invariant
            i <= entries.len(),
            views == entry_views(entries@),
            make == |entry: SearchEntryView| candidate(entry),
            company_views(found@) == views.take(i as int).filter_map(make),
        decreases entries.len() - i,
    {
        proof {
            views.lemma_filter_map_take_succ(make, i as int);
        }
        let ghost before = company_views(found@);
        match candidate_from(&entries[i]) {
            Some(company) => {
                found.push(company);
                assert(company_views(found@) =~= before + seq![company@]);
            },
            None => {},
        }
        i = i + 1;
    }
    assert(views.take(i as int) =~= views);
    found
}

/// Extracts the candidates from the markup of a results page: parses the
/// markup, and makes the candidates of its entries. A page without entries
/// gives no candidates, and that is no error. The markup must be short
/// enough for the parser; `fits_limit` tells.
pub fn extract_candidates(markup: &str, layout: &SearchLayout) -> (found: Vec<Company>)
    requires
        within_limit(markup@),
    ensures
        company_views(found@) == candidates(page_entries(markup@, *layout)),
        found.len() <= document_matches(parsed_document(markup@), layout.entry).len(),
{
    let document = Html::parse_document(markup);
    let entries = select_in_document(&document, &layout.entry);
    let read = read_entries(&entries, layout);
    candidates_from(&read)
}

} // verus!
