//! What the extractors guarantee, proved of every input.

use crate::board::board_of;
use crate::board::board_of_page;
use crate::board::board_outcome;
use crate::board::branch_row_defects;
use crate::board::contact_defects;
use crate::board::first_defect;
use crate::board::has_texts;
use crate::board::is_board_of;
use crate::board::is_complete;
use crate::board::is_complete_row;
use crate::board::is_leaf_of;
use crate::board::is_manager_of;
use crate::board::leaves;
use crate::board::lemma_first_defect_none;
use crate::board::managers;
use crate::error::ExtractionError;
use crate::layout::BoardLayout;
use crate::layout::SearchLayout;
use crate::markup::document_matches;
use crate::markup::element_matches;
use crate::markup::parsed_document;
use crate::model::Board;
use crate::model::BoardView;
use crate::model::Company;
use crate::model::company_views;
use crate::model::is_layered;
use crate::model::is_leaf;
use crate::model::NodeView;
use crate::pipeline::chosen;
use crate::reading::board_markup;
use crate::reading::BoardMarkupView;
use crate::reading::BranchRowView;
use crate::reading::ContactBlockView;
use crate::search::candidate;
use crate::search::candidates;
use crate::search::page_entries;
use crate::search::SearchEntryView;
use crate::text::lemma_trimmed_empty_iff_blank;
use crate::text::lemma_trimmed_is_trimmed;
use crate::text::trimmed;
use scraper::ElementRef;
use vstd::prelude::*;

verus! {

/// People come of contact blocks if and only if every block has name and
/// title.
pub proof fn lemma_leaves_iff_texts(contacts: Seq<ContactBlockView>)
    ensures
        leaves(contacts) is Ok <==> forall|i: int|
            0 <= i < contacts.len() ==> has_texts(#[trigger] contacts[i]),
{
    let defects = contact_defects(contacts);
    lemma_first_defect_none(defects);
    if leaves(contacts) is Ok {
        assert forall|i: int| 0 <= i < contacts.len() implies has_texts(#[trigger] contacts[i]) by {
            assert(defects[i] is None);
        }
    }
    if forall|i: int| 0 <= i < contacts.len() ==> has_texts(#[trigger] contacts[i]) {
        assert forall|i: int| 0 <= i < defects.len() implies (#[trigger] defects[i]) is None by {
            assert(has_texts(contacts[i]));
        }
    }
}

/// Where people come of contact blocks, there is one for each block, in
/// the order of the blocks, with the block's trimmed texts and without
/// direct reports.
pub proof fn lemma_leaves(contacts: Seq<ContactBlockView>)
    requires
        leaves(contacts) is Ok,
    ensures
        leaves(contacts)->Ok_0.len() == contacts.len(),
        forall|i: int|
            0 <= i < contacts.len() ==> is_leaf_of(
                #[trigger] leaves(contacts)->Ok_0[i],
                contacts[i],
            ),
{
    lemma_first_defect_none(contact_defects(contacts));
    assert forall|i: int| 0 <= i < contacts.len() implies is_leaf_of(
        #[trigger] leaves(contacts)->Ok_0[i],
        contacts[i],
    ) by {
        assert(contact_defects(contacts)[i] is None);
        lemma_trimmed_is_trimmed(contacts[i].name->0);
        lemma_trimmed_is_trimmed(contacts[i].title->0);
        lemma_trimmed_empty_iff_blank(contacts[i].name->0);
        lemma_trimmed_empty_iff_blank(contacts[i].title->0);
    }
}

/// The board members of a board are the contact blocks of the flat list:
/// one for each block, in the order of the blocks, each with the block's
/// trimmed name and title and without direct reports.
pub proof fn lemma_board_members(markup: BoardMarkupView)
    requires
        board_of(markup) is Ok,
    ensures
        board_of(markup)->Ok_0.boards.len() == markup.contacts.len(),
        forall|i: int|
            0 <= i < markup.contacts.len() ==> is_leaf_of(
                #[trigger] board_of(markup)->Ok_0.boards[i],
                markup.contacts[i],
            ),
{
    lemma_leaves(markup.contacts);
}

/// The members of a board are the branch rows: one manager for each row, in
/// the order of the rows, with the trimmed name and title of the row's
/// parent block; and the manager's direct reports are the row's child
/// blocks: one for each, in their order, with trimmed name and title and
/// without direct reports of their own.
pub proof fn lemma_members(markup: BoardMarkupView)
    requires
        board_of(markup) is Ok,
    ensures
        board_of(markup)->Ok_0.members.len() == markup.branch_rows.len(),
        forall|i: int|
            0 <= i < markup.branch_rows.len() ==> is_manager_of(
                #[trigger] board_of(markup)->Ok_0.members[i],
                markup.branch_rows[i],
            ),
{
    let rows = markup.branch_rows;
    let made = board_of(markup)->Ok_0;
    lemma_first_defect_none(branch_row_defects(rows));
    assert forall|i: int| 0 <= i < rows.len() implies is_manager_of(
        #[trigger] made.members[i],
        rows[i],
    ) by {
        let row = rows[i];
        assert(branch_row_defects(rows)[i] is None);
        lemma_leaves(row.children);
        lemma_trimmed_is_trimmed(row.parent->0.name->0);
        lemma_trimmed_is_trimmed(row.parent->0.title->0);
        lemma_trimmed_empty_iff_blank(row.parent->0.name->0);
        lemma_trimmed_empty_iff_blank(row.parent->0.title->0);
    }
}

/// There is a board if and only if the markup is complete; and the board
/// is then the board of the markup, and as deep as a board page is.
pub proof fn lemma_board_of(markup: BoardMarkupView)
    ensures
        board_of(markup) is Ok <==> is_complete(markup),
        board_of(markup) is Ok ==> is_board_of(board_of(markup)->Ok_0, markup) && is_layered(
            board_of(markup)->Ok_0,
        ),
{
    let rows = markup.branch_rows;
    let defects = branch_row_defects(rows);
    lemma_leaves_iff_texts(markup.contacts);
    lemma_first_defect_none(defects);
    if board_of(markup) is Ok {
        lemma_board_members(markup);
        lemma_members(markup);
        let made = board_of(markup)->Ok_0;
        assert forall|i: int| 0 <= i < rows.len() implies is_complete_row(#[trigger] rows[i]) by {
            assert(is_manager_of(made.members[i], rows[i]));
            assert forall|j: int| 0 <= j < rows[i].children.len() implies has_texts(
                #[trigger] rows[i].children[j],
            ) by {
                assert(is_leaf_of(made.members[i].children[j], rows[i].children[j]));
            }
        }
        assert forall|i: int, j: int|
            0 <= i < made.members.len() && 0 <= j < made.members[i].children.len() implies is_leaf(
            #[trigger] made.members[i].children[j],
        ) by {
            assert(is_manager_of(made.members[i], rows[i]));
            assert(is_leaf_of(made.members[i].children[j], rows[i].children[j]));
        }
        assert forall|i: int| 0 <= i < made.boards.len() implies is_leaf(
            #[trigger] made.boards[i],
        ) by {
            assert(is_leaf_of(made.boards[i], markup.contacts[i]));
        }
    }
    if is_complete(markup) {
        assert forall|i: int| 0 <= i < defects.len() implies (#[trigger] defects[i]) is None by {
            assert(is_complete_row(rows[i]));
            lemma_leaves_iff_texts(rows[i].children);
        }
    }
}

/// Two people of the same contact block without direct reports are the
/// same.
proof fn lemma_leaf_unique(first: NodeView, second: NodeView, contact: ContactBlockView)
    requires
        is_leaf_of(first, contact),
        is_leaf_of(second, contact),
    ensures
        first == second,
{
    assert(first.children =~= second.children);
}

/// Two managers of the same branch row are the same.
proof fn lemma_manager_unique(first: NodeView, second: NodeView, row: BranchRowView)
    requires
        is_manager_of(first, row),
        is_manager_of(second, row),
    ensures
        first == second,
{
    assert forall|j: int| 0 <= j < first.children.len() implies first.children[j]
        == second.children[j] by {
        lemma_leaf_unique(first.children[j], second.children[j], row.children[j]);
    }
    assert(first.children =~= second.children);
}

/// What a markup offers fixes its board: two boards of the same markup are
/// the same.
pub proof fn lemma_board_unique(first: BoardView, second: BoardView, markup: BoardMarkupView)
    requires
        is_board_of(first, markup),
        is_board_of(second, markup),
    ensures
        first == second,
{
    assert forall|i: int| 0 <= i < first.boards.len() implies first.boards[i]
        == second.boards[i] by {
        lemma_leaf_unique(first.boards[i], second.boards[i], markup.contacts[i]);
    }
    assert forall|i: int| 0 <= i < first.members.len() implies first.members[i]
        == second.members[i] by {
        lemma_manager_unique(first.members[i], second.members[i], markup.branch_rows[i]);
    }
    assert(first.company_name =~= second.company_name);
    assert(first.boards =~= second.boards);
    assert(first.members =~= second.members);
    assert(first.company_tree =~= second.company_tree);
}

/// A board has as many board members as its container has contact blocks
/// in the flat list, as many members as the container has branch rows, and
/// each member has as many direct reports as its row has contact blocks of
/// the child tier.
pub proof fn lemma_board_counts(board: ElementRef<'_>, layout: BoardLayout)
    requires
        board_of(board_markup(board, layout)) is Ok,
    ensures
        ({
            let made = board_of(board_markup(board, layout))->Ok_0;
            let rows = element_matches(board, layout.branch_row);
            &&& made.boards.len() == element_matches(board, layout.contact).len()
            &&& made.members.len() == rows.len()
            &&& forall|i: int|
                0 <= i < rows.len() ==> (#[trigger] made.members[i]).children.len()
                    == element_matches(rows[i], layout.child).len()
        }),
{
    let markup = board_markup(board, layout);
    lemma_board_members(markup);
    lemma_members(markup);
}

/// Extraction has no hidden state: two outcomes of extracting a board from
/// the same markup, with the same layout, hold the same.
pub proof fn lemma_extraction_deterministic(
    markup: Seq<char>,
    layout: BoardLayout,
    first: Result<Board, ExtractionError>,
    second: Result<Board, ExtractionError>,
)
    requires
        board_outcome(first) == board_of_page(markup, layout),
        board_outcome(second) == board_of_page(markup, layout),
    ensures
        board_outcome(first) == board_outcome(second),
{
}

/// The search has no hidden state either: two lists of candidates from the
/// same markup, with the same layout, hold the same.
pub proof fn lemma_search_deterministic(
    markup: Seq<char>,
    layout: SearchLayout,
    first: Vec<Company>,
    second: Vec<Company>,
)
    requires
        company_views(first@) == candidates(page_entries(markup, layout)),
        company_views(second@) == candidates(page_entries(markup, layout)),
    ensures
        company_views(first@) == company_views(second@),
{
}

/// Without branch rows a board has no members, and the rows are no reason
/// for an error: there is a board if and only if no contact block of the
/// flat list lacks something.
pub proof fn lemma_no_branch_rows(markup: BoardMarkupView)
    requires
        markup.branch_rows.len() == 0,
    ensures
        managers(markup.branch_rows) == Ok::<Seq<NodeView>, ExtractionError>(Seq::empty()),
        board_of(markup) is Ok <==> leaves(markup.contacts) is Ok,
        board_of(markup) is Ok ==> board_of(markup)->Ok_0.members.len() == 0,
{
    lemma_first_defect_none(branch_row_defects(markup.branch_rows));
    assert(managers(markup.branch_rows)->Ok_0 =~= Seq::empty());
}

/// A board container without branch rows, in which every contact block of
/// the flat list has name and title, gives a board, and the board has no
/// members.
pub proof fn lemma_no_branch_rows_in_container(board: ElementRef<'_>, layout: BoardLayout)
    requires
        element_matches(board, layout.branch_row).len() == 0,
        forall|i: int|
            0 <= i < element_matches(board, layout.contact).len() ==> has_texts(
                #[trigger] board_markup(board, layout).contacts[i],
            ),
    ensures
        board_of(board_markup(board, layout)) is Ok,
        board_of(board_markup(board, layout))->Ok_0.members.len() == 0,
{
    let markup = board_markup(board, layout);
    lemma_leaves_iff_texts(markup.contacts);
    lemma_no_branch_rows(markup);
}

/// A contact block without a name is an error, wherever it stands: in the
/// flat list, as the parent of a branch row, or among a row's children.
pub proof fn lemma_missing_name_fails(markup: BoardMarkupView)
    requires
        ({
            ||| exists|i: int|
                0 <= i < markup.contacts.len() && (#[trigger] markup.contacts[i]).name is None
            ||| exists|i: int|
                0 <= i < markup.branch_rows.len() && (#[trigger] markup.branch_rows[i]).parent
                    is Some && markup.branch_rows[i].parent->0.name is None
            ||| exists|i: int, j: int|
                0 <= i < markup.branch_rows.len() && 0 <= j < markup.branch_rows[i].children.len()
                    && (#[trigger] markup.branch_rows[i].children[j]).name is None
        }),
    ensures
        board_of(markup) is Err,
{
    if board_of(markup) is Ok {
        lemma_board_members(markup);
        lemma_members(markup);
        if exists|i: int|
            0 <= i < markup.contacts.len() && (#[trigger] markup.contacts[i]).name is None {
            let i = choose|i: int|
                0 <= i < markup.contacts.len() && (#[trigger] markup.contacts[i]).name is None;
            assert(is_leaf_of(board_of(markup)->Ok_0.boards[i], markup.contacts[i]));
        } else if exists|i: int|
            0 <= i < markup.branch_rows.len() && (#[trigger] markup.branch_rows[i]).parent is Some
                && markup.branch_rows[i].parent->0.name is None {
            let i = choose|i: int|
                0 <= i < markup.branch_rows.len() && (#[trigger] markup.branch_rows[i]).parent
                    is Some && markup.branch_rows[i].parent->0.name is None;
            assert(is_manager_of(board_of(markup)->Ok_0.members[i], markup.branch_rows[i]));
        } else {
            let (i, j) = choose|i: int, j: int|
                0 <= i < markup.branch_rows.len() && 0 <= j < markup.branch_rows[i].children.len()
                    && (#[trigger] markup.branch_rows[i].children[j]).name is None;
            assert(is_manager_of(board_of(markup)->Ok_0.members[i], markup.branch_rows[i]));
            assert(is_leaf_of(
                board_of(markup)->Ok_0.members[i].children[j],
                markup.branch_rows[i].children[j],
            ));
        }
    }
}

/// A contact block of the flat list in which no element matches the name
/// selector is an error.
pub proof fn lemma_absent_name_element_fails(board: ElementRef<'_>, layout: BoardLayout, i: int)
    requires
        0 <= i < element_matches(board, layout.contact).len(),
        element_matches(element_matches(board, layout.contact)[i], layout.name).len() == 0,
    ensures
        board_of(board_markup(board, layout)) is Err,
{
    let markup = board_markup(board, layout);
    assert(markup.contacts[i].name is None);
    lemma_missing_name_fails(markup);
}

/// The error of a board is that of the first contact block of the flat
/// list that lacks something; where none does, that of the first branch
/// row that lacks something.
pub proof fn lemma_first_failure(markup: BoardMarkupView)
    ensures
        board_of(markup) is Err <==> first_defect(contact_defects(markup.contacts)) is Some
            || first_defect(branch_row_defects(markup.branch_rows)) is Some,
        board_of(markup) is Err ==> board_of(markup)->Err_0 == (if first_defect(
            contact_defects(markup.contacts),
        ) is Some {
            first_defect(contact_defects(markup.contacts))->0
        } else {
            first_defect(branch_row_defects(markup.branch_rows))->0
        }),
{
}

/// A results page without entries gives no candidates, and choosing among
/// them finds no company.
pub proof fn lemma_no_entries(markup: Seq<char>, layout: SearchLayout)
    requires
        document_matches(parsed_document(markup), layout.entry).len() == 0,
    ensures
        candidates(page_entries(markup, layout)).len() == 0,
        chosen(candidates(page_entries(markup, layout))) is Err,
{
}

/// Entries of which none has both its label and its path give no
/// candidates.
pub proof fn lemma_no_complete_entries(entries: Seq<SearchEntryView>)
    requires
        forall|i: int| 0 <= i < entries.len() ==> candidate(#[trigger] entries[i]) is None,
    ensures
        candidates(entries).len() == 0,
    decreases entries.len(),
{
    if entries.len() > 0 {
        let rest = entries.drop_last();
        assert forall|i: int| 0 <= i < rest.len() implies candidate(#[trigger] rest[i]) is None by {
            assert(rest[i] == entries[i]);
        }
        lemma_no_complete_entries(rest);
        assert(candidate(entries.last()) is None);
    }
}

/// Entries that make no candidate are passed over, and nothing is added:
/// the candidates are never more than the entries.
pub proof fn lemma_candidates_len(entries: Seq<SearchEntryView>)
    ensures
        candidates(entries).len() <= entries.len(),
    decreases entries.len(),
{
    if entries.len() > 0 {
        lemma_candidates_len(entries.drop_last());
    }
}

/// A results page gives no more candidates than it has entries.
pub proof fn lemma_candidates_bounded(markup: Seq<char>, layout: SearchLayout)
    ensures
        candidates(page_entries(markup, layout)).len() <= document_matches(
            parsed_document(markup),
            layout.entry,
        ).len(),
{
    lemma_candidates_len(page_entries(markup, layout));
}

} // verus!
