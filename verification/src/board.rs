//! The board extractor: from the markup of a company's board to its board
//! members and its reporting hierarchy.
//!
//! The extraction has two steps. Reading takes from the parsed markup the
//! texts that it offers for each contact block. Building makes the board of
//! them, and is strict: where a text that a person needs is absent, there is
//! no board.

use crate::error::ExtractionError;
use crate::guarantees::lemma_board_of;
use crate::layout::BoardLayout;
use crate::markup::document_matches;
use crate::markup::parsed_document;
use crate::markup::select_in_document;
use crate::markup::within_limit;
use crate::model::Board;
use crate::model::BoardView;
use crate::model::is_layered;
use crate::model::is_leaf;
use crate::model::lemma_node_view;
use crate::model::Node;
use crate::model::node_views;
use crate::model::NodeView;
use crate::reading::board_markup;
use crate::reading::BoardMarkup;
use crate::reading::BoardMarkupView;
use crate::reading::branch_row_views;
use crate::reading::BranchRow;
use crate::reading::BranchRowView;
use crate::reading::contact_views;
use crate::reading::ContactBlock;
use crate::reading::ContactBlockView;
use crate::reading::read_board;
use crate::text::is_blank;
use crate::text::is_trimmed;
use crate::text::trim;
use crate::text::trimmed;
use scraper::ElementRef;
use scraper::Html;
use vstd::prelude::*;

verus! {

/// Whether `i` is the first place of `defects` that holds a defect.
pub open spec fn is_first_defect(defects: Seq<Option<ExtractionError>>, i: int) -> bool {
    &&& 0 <= i < defects.len()
    &&& defects[i] is Some
    &&& forall|j: int| 0 <= j < i ==> (#[trigger] defects[j]) is None
}

/// The first defect that `defects` holds, if it holds any.
pub open spec fn first_defect(defects: Seq<Option<ExtractionError>>) -> Option<ExtractionError> {
    if exists|i: int| is_first_defect(defects, i) {
        defects[choose|i: int| is_first_defect(defects, i)]
    } else {
        None
    }
}

/// What a contact block lacks to make a person: its name, else its title,
/// else nothing.
pub open spec fn contact_defect(contact: ContactBlockView) -> Option<ExtractionError> {
    if contact.name is None {
        Some(ExtractionError::MissingName)
    } else if contact.title is None {
        Some(ExtractionError::MissingTitle)
    } else {
        None
    }
}

/// The person of a contact block that lacks nothing, with `children` as the
/// direct reports: name and title are the block's texts, trimmed.
pub open spec fn person(contact: ContactBlockView, children: Seq<NodeView>) -> NodeView {
    NodeView { name: trimmed(contact.name->0), title: trimmed(contact.title->0), children }
}

/// What each contact block of `contacts` lacks.
pub open spec fn contact_defects(contacts: Seq<ContactBlockView>) -> Seq<Option<ExtractionError>> {
    Seq::new(contacts.len(), |i: int| contact_defect(contacts[i]))
}

/// The people of `contacts`, none with direct reports, in the order of the
/// blocks; or what the first block that lacks something lacks.
pub open spec fn leaves(contacts: Seq<ContactBlockView>) -> Result<Seq<NodeView>, ExtractionError> {
    match first_defect(contact_defects(contacts)) {
        Some(error) => Err(error),
        None => Ok(Seq::new(contacts.len(), |i: int| person(contacts[i], Seq::empty()))),
    }
}

/// What a branch row lacks to make a manager with direct reports: a parent
/// block, else what the parent block lacks, else what the first child block
/// that lacks something lacks, else nothing.
pub open spec fn branch_row_defect(row: BranchRowView) -> Option<ExtractionError> {
    match row.parent {
        None => Some(ExtractionError::MissingParent),
        Some(parent) => match contact_defect(parent) {
            Some(error) => Some(error),
            None => match leaves(row.children) {
                Err(error) => Some(error),
                Ok(_) => None,
            },
        },
    }
}

/// The manager of a branch row that lacks nothing, with the people of the
/// child blocks as direct reports.
pub open spec fn manager(row: BranchRowView) -> NodeView {
    person(row.parent->0, leaves(row.children)->Ok_0)
}

/// What each branch row of `rows` lacks.
pub open spec fn branch_row_defects(rows: Seq<BranchRowView>) -> Seq<Option<ExtractionError>> {
    Seq::new(rows.len(), |i: int| branch_row_defect(rows[i]))
}

/// The managers of `rows`, in the order of the rows; or what the first row
/// that lacks something lacks.
pub open spec fn managers(rows: Seq<BranchRowView>) -> Result<Seq<NodeView>, ExtractionError> {
    match first_defect(branch_row_defects(rows)) {
        Some(error) => Err(error),
        None => Ok(Seq::new(rows.len(), |i: int| manager(rows[i]))),
    }
}

/// The board that `markup` makes: the people of the flat list as board
/// members, the managers of the branch rows as members, no company name and
/// no company tree. Where a block of the flat list lacks something there is
/// no board, and neither where a branch row does.
pub open spec fn board_of(markup: BoardMarkupView) -> Result<BoardView, ExtractionError> {
    match leaves(markup.contacts) {
        Err(error) => Err(error),
        Ok(boards) => match managers(markup.branch_rows) {
            Err(error) => Err(error),
            Ok(members) => Ok(
                BoardView {
                    company_name: Seq::empty(),
                    boards,
                    members,
                    company_tree: Seq::empty(),
                },
            ),
        },
    }
}

/// What the first board container of the document that `markup` parses to
/// offers; `None` where the document has no board container.
pub open spec fn page_markup(markup: Seq<char>, layout: BoardLayout) -> Option<BoardMarkupView> {
    let containers = document_matches(parsed_document(markup), layout.board);
    if containers.len() == 0 {
        None
    } else {
        Some(board_markup(containers[0], layout))
    }
}

/// The board of the first board container of the document that `markup`
/// parses to. A document without board container has no board.
pub open spec fn board_of_page(markup: Seq<char>, layout: BoardLayout) -> Result<
    BoardView,
    ExtractionError,
> {
    match page_markup(markup, layout) {
        None => Err(ExtractionError::MissingBoard),
        Some(offered) => board_of(offered),
    }
}

/// Whether `contact` offers a name and a title.
pub open spec fn has_texts(contact: ContactBlockView) -> bool {
    contact.name is Some && contact.title is Some
}

/// Whether `row` offers a manager and direct reports: a parent block with
/// name and title, and child blocks that all have name and title.
pub open spec fn is_complete_row(row: BranchRowView) -> bool {
    &&& row.parent is Some
    &&& has_texts(row.parent->0)
    &&& forall|j: int| 0 <= j < row.children.len() ==> has_texts(#[trigger] row.children[j])
}

/// Whether `markup` offers all that a board needs: every contact block of
/// the flat list has name and title, and every branch row is complete.
pub open spec fn is_complete(markup: BoardMarkupView) -> bool {
    &&& forall|i: int| 0 <= i < markup.contacts.len() ==> has_texts(#[trigger] markup.contacts[i])
    &&& forall|i: int|
        0 <= i < markup.branch_rows.len() ==> is_complete_row(#[trigger] markup.branch_rows[i])
}

/// Whether `node` is the person of `contact`: name and title are the
/// block's texts without the whitespace around them, and are empty only
/// where the block's text is nothing but whitespace.
pub open spec fn is_person_of(node: NodeView, contact: ContactBlockView) -> bool {
    &&& has_texts(contact)
    &&& node.name == trimmed(contact.name->0)
    &&& node.title == trimmed(contact.title->0)
    &&& is_trimmed(node.name)
    &&& is_trimmed(node.title)
    &&& node.name.len() == 0 <==> is_blank(contact.name->0)
    &&& node.title.len() == 0 <==> is_blank(contact.title->0)
}

/// Whether `node` is the person of `contact` and has no direct reports.
pub open spec fn is_leaf_of(node: NodeView, contact: ContactBlockView) -> bool {
    is_person_of(node, contact) && is_leaf(node)
}

/// Whether `node` is the manager of `row`: the person of the row's parent
/// block, with one direct report for each child block of the row, in the
/// order of the blocks, none of them with direct reports of its own.
pub open spec fn is_manager_of(node: NodeView, row: BranchRowView) -> bool {
    &&& row.parent is Some
    &&& is_person_of(node, row.parent->0)
    &&& node.children.len() == row.children.len()
    &&& forall|j: int|
        0 <= j < row.children.len() ==> is_leaf_of(#[trigger] node.children[j], row.children[j])
}

/// Whether `board` is the board that `markup` makes: no company name, one
/// board member for each contact block of the flat list, one member for
/// each branch row, each in the order of the markup, and no company tree.
pub open spec fn is_board_of(board: BoardView, markup: BoardMarkupView) -> bool {
    &&& board.company_name.len() == 0
    &&& board.boards.len() == markup.contacts.len()
    &&& forall|i: int|
        0 <= i < markup.contacts.len() ==> is_leaf_of(
            #[trigger] board.boards[i],
            markup.contacts[i],
        )
    &&& board.members.len() == markup.branch_rows.len()
    &&& forall|i: int|
        0 <= i < markup.branch_rows.len() ==> is_manager_of(
            #[trigger] board.members[i],
            markup.branch_rows[i],
        )
    &&& board.company_tree.len() == 0
}

/// The value of an outcome that holds nodes.
pub open spec fn nodes_outcome(outcome: Result<Vec<Node>, ExtractionError>) -> Result<
    Seq<NodeView>,
    ExtractionError,
> {
    match outcome {
        Ok(nodes) => Ok(node_views(nodes@)),
        Err(error) => Err(error),
    }
}

/// The value of an outcome that holds a board.
pub open spec fn board_outcome(outcome: Result<Board, ExtractionError>) -> Result<
    BoardView,
    ExtractionError,
> {
    match outcome {
        Ok(board) => Ok(board@),
        Err(error) => Err(error),
    }
}

/// Where `i` is the first place of `defects` with a defect, that defect is
/// the first defect.
pub proof fn lemma_first_defect_at(defects: Seq<Option<ExtractionError>>, i: int)
    requires
        is_first_defect(defects, i),
    ensures
        first_defect(defects) == defects[i],
{
    let k = choose|k: int| is_first_defect(defects, k);
    if k < i {
        assert(defects[k] is None);
    }
    if i < k {
        assert(defects[i] is None);
    }
}

/// Where no place of `defects` holds a defect, there is no first defect;
/// and where there is none, no place holds one.
pub proof fn lemma_first_defect_none(defects: Seq<Option<ExtractionError>>)
    ensures
        first_defect(defects) is None <==> forall|j: int|
            0 <= j < defects.len() ==> (#[trigger] defects[j]) is None,
{
    if first_defect(defects) is None {
        assert forall|j: int| 0 <= j < defects.len() implies (#[trigger] defects[j]) is None by {
            lemma_first_defect_exists(defects, j);
        }
    }
}

/// Where a place of `defects` up to `i` holds a defect, there is a first one.
proof fn lemma_first_defect_exists(defects: Seq<Option<ExtractionError>>, i: int)
    requires
        0 <= i < defects.len(),
    ensures
        defects[i] is Some ==> exists|k: int| is_first_defect(defects, k),
        (exists|k: int| is_first_defect(defects, k)) ==> first_defect(defects) is Some,
    decreases i,
{
    if exists|k: int| is_first_defect(defects, k) {
        let k = choose|k: int| is_first_defect(defects, k);
        assert(first_defect(defects) == defects[k]);
    }
    if defects[i] is Some {
        if forall|j: int| 0 <= j < i ==> (#[trigger] defects[j]) is None {
            assert(is_first_defect(defects, i));
        } else {
            let j = choose|j: int| 0 <= j < i && !((#[trigger] defects[j]) is None);
            lemma_first_defect_exists(defects, j);
        }
    }
}

/// Makes the person of `contact`, with `children` as the direct reports.
pub fn person_from(contact: &ContactBlock, children: Vec<Node>) -> (outcome: Result<
    Node,
    ExtractionError,
>)
    ensures
        match outcome {
            Ok(node) => contact_defect(contact@) is None && node@ == person(
                contact@,
                node_views(children@),
            ),
            Err(error) => contact_defect(contact@) == Some(error),
        },
{
    match &contact.name {
        None => Err(ExtractionError::MissingName),
        Some(name) => match &contact.title {
            None => Err(ExtractionError::MissingTitle),
            Some(title) => {
                let node = Node {
                    name: trim(name.as_str()),
                    title: trim(title.as_str()),
                    children,
                };
                proof {
                    lemma_node_view(node);
                }
                Ok(node)
            },
        },
    }
}

/// Makes the people of `contacts`, none with direct reports.
pub fn leaves_from(contacts: &Vec<ContactBlock>) -> (outcome: Result<Vec<Node>, ExtractionError>)
    ensures
        nodes_outcome(outcome) == leaves(contact_views(contacts@)),
{
    let ghost views = contact_views(contacts@);
    let ghost defects = contact_defects(views);
    let mut nodes: Vec<Node> = Vec::new();
    let mut i: usize = 0;
    while i < contacts.len()
        invariant
            i <= contacts.len(),
            nodes.len() == i,
            views == contact_views(contacts@),
            defects == contact_defects(views),
            forall|j: int| 0 <= j < i ==> (#[trigger] defects[j]) is None,
            forall|j: int| 0 <= j < i ==> nodes[j]@ == person(views[j], Seq::empty()),
        decreases contacts.len() - i,
    {
        match person_from(&contacts[i], Vec::new()) {
            Ok(node) => {
                assert(node_views(Seq::<Node>::empty()) =~= Seq::<NodeView>::empty());
                nodes.push(node);
            },
            Err(error) => {
                proof {
                    assert(defects[i as int] == Some(error));
                    lemma_first_defect_at(defects, i as int);
                }
                return Err(error);
            },
        }
        i = i + 1;
    }
    proof {
        lemma_first_defect_none(defects);
        assert(node_views(nodes@) =~= Seq::new(
            views.len(),
            |i: int| person(views[i], Seq::empty()),
        ));
    }
    Ok(nodes)
}

/// Makes the manager of `row`, with the people of its child blocks as
/// direct reports.
pub fn manager_from(row: &BranchRow) -> (outcome: Result<Node, ExtractionError>)
    ensures
        match outcome {
            Ok(node) => branch_row_defect(row@) is None && node@ == manager(row@),
            Err(error) => branch_row_defect(row@) == Some(error),
        },
{
    match &row.parent {
        None => Err(ExtractionError::MissingParent),
        Some(parent) => {
            if parent.name.is_none() {
                return Err(ExtractionError::MissingName);
            }
            if parent.title.is_none() {
                return Err(ExtractionError::MissingTitle);
            }
            match leaves_from(&row.children) {
                Err(error) => Err(error),
                Ok(children) => person_from(parent, children),
            }
        },
    }
}

/// Makes the managers of `rows`.
pub fn managers_from(rows: &Vec<BranchRow>) -> (outcome: Result<Vec<Node>, ExtractionError>)
    ensures
        nodes_outcome(outcome) == managers(branch_row_views(rows@)),
{
    let ghost views = branch_row_views(rows@);
    let ghost defects = branch_row_defects(views);
    let mut nodes: Vec<Node> = Vec::new();
    let mut i: usize = 0;
    while i < rows.len()
        invariant
            i <= rows.len(),
            nodes.len() == i,
            views == branch_row_views(rows@),
            defects == branch_row_defects(views),
            forall|j: int| 0 <= j < i ==> (#[trigger] defects[j]) is None,
            forall|j: int| 0 <= j < i ==> nodes[j]@ == manager(views[j]),
        decreases rows.len() - i,
    {
        match manager_from(&rows[i]) {
            Ok(node) => {
                nodes.push(node);
            },
            Err(error) => {
                proof {
                    assert(defects[i as int] == Some(error));
                    lemma_first_defect_at(defects, i as int);
                }
                return Err(error);
            },
        }
        i = i + 1;
    }
    proof {
        lemma_first_defect_none(defects);
        assert(node_views(nodes@) =~= Seq::new(views.len(), |i: int| manager(views[i])));
    }
    Ok(nodes)
}

/// Makes the board of what the markup of a board container offers. There
/// is a board if and only if the markup is complete; the error is else
/// that of the first contact block of the flat list that lacks something,
/// or, where none does, that of the first branch row that lacks something.
pub fn build_board(markup: &BoardMarkup) -> (outcome: Result<Board, ExtractionError>)
    ensures
        board_outcome(outcome) == board_of(markup@),
        outcome is Ok <==> is_complete(markup@),
        outcome matches Ok(board) ==> is_board_of(board@, markup@) && is_layered(board@),
{
    proof {
        lemma_board_of(markup@);
    }
    let boards = leaves_from(&markup.contacts)?;
    let members = managers_from(&markup.branch_rows)?;
    let board = Board { company_name: String::new(), boards, members, company_tree: Vec::new() };
    assert(board@.company_tree =~= Seq::empty());
    Ok(board)
}

/// Extracts the board from its container: reads what the markup offers,
/// and makes the board of it.
pub fn parse_board(board: ElementRef<'_>, layout: &BoardLayout) -> (outcome: Result<
    Board,
    ExtractionError,
>)
    ensures
        board_outcome(outcome) == board_of(board_markup(board, *layout)),
        outcome is Ok <==> is_complete(board_markup(board, *layout)),
        outcome matches Ok(made) ==> is_board_of(made@, board_markup(board, *layout))
            && is_layered(made@),
{
    let markup = read_board(board, layout);
    build_board(&markup)
}

/// Extracts the board from the markup of a company's board page: parses
/// the markup, and extracts the board from the first board container.
/// There is a board if and only if the page has a board container and
/// what that offers is complete. The markup must be short enough for the
/// parser; `fits_limit` tells.
pub fn extract_board(markup: &str, layout: &BoardLayout) -> (outcome: Result<
    Board,
    ExtractionError,
>)
    requires
        within_limit(markup@),
    ensures
        board_outcome(outcome) == board_of_page(markup@, *layout),
        outcome is Ok <==> page_markup(markup@, *layout) is Some && is_complete(
            page_markup(markup@, *layout)->0,
        ),
        outcome matches Ok(made) ==> is_board_of(made@, page_markup(markup@, *layout)->0)
            && is_layered(made@),
{
    let document = Html::parse_document(markup);
    let containers = select_in_document(&document, &layout.board);
    if containers.len() == 0 {
        Err(ExtractionError::MissingBoard)
    } else {
        parse_board(containers[0], layout)
    }
}

} // verus!
