//! Reading a board: what the parsed markup of a board container offers for
//! each contact block, before anything is asked of it.

use crate::field::field_text;
use crate::field::read_field;
use crate::field::text_view;
use crate::layout::BoardLayout;
use crate::markup::element_matches;
use crate::markup::select_in_element;
use scraper::ElementRef;
use vstd::prelude::*;

verus! {

/// What the markup of one contact block offers of a person.
#[derive(Debug, PartialEq, Eq)]
pub struct ContactBlock {
    /// The first text run of the name element; `None` where the block has
    /// no name element, or one without text.
    pub name: Option<String>,
    /// The first text run of the title element; `None` where the block has
    /// no title element, or one without text.
    pub title: Option<String>,
}

/// The mathematical value of a [`ContactBlock`].
pub struct ContactBlockView {
    pub name: Option<Seq<char>>,
    pub title: Option<Seq<char>>,
}

impl View for ContactBlock {
    type V = ContactBlockView;

    open spec fn view(&self) -> ContactBlockView {
        ContactBlockView { name: text_view(self.name), title: text_view(self.title) }
    }
}

/// The values of the contact blocks of `contacts`, in order.
pub open spec fn contact_views(contacts: Seq<ContactBlock>) -> Seq<ContactBlockView> {
    Seq::new(contacts.len(), |i: int| contacts[i]@)
}

/// What the markup of one branch row offers: a manager and the manager's
/// direct reports.
#[derive(Debug, PartialEq, Eq)]
pub struct BranchRow {
    /// The first contact block of the parent tier; `None` where the row has
    /// none.
    pub parent: Option<ContactBlock>,
    /// The contact blocks of the child tier, in the order of the document.
    pub children: Vec<ContactBlock>,
}

/// The mathematical value of a [`BranchRow`].
pub struct BranchRowView {
    pub parent: Option<ContactBlockView>,
    pub children: Seq<ContactBlockView>,
}

impl View for BranchRow {
    type V = BranchRowView;

    open spec fn view(&self) -> BranchRowView {
        BranchRowView {
            parent: match self.parent {
                Some(parent) => Some(parent@),
                None => None,
            },
            children: contact_views(self.children@),
        }
    }
}

/// The values of the branch rows of `rows`, in order.
pub open spec fn branch_row_views(rows: Seq<BranchRow>) -> Seq<BranchRowView> {
    Seq::new(rows.len(), |i: int| rows[i]@)
}

/// What the markup of a board container offers.
#[derive(Debug, PartialEq, Eq)]
pub struct BoardMarkup {
    /// The contact blocks of the flat list, in the order of the document.
    pub contacts: Vec<ContactBlock>,
    /// The branch rows, in the order of the document.
    pub branch_rows: Vec<BranchRow>,
}

/// The mathematical value of a [`BoardMarkup`].
pub struct BoardMarkupView {
    pub contacts: Seq<ContactBlockView>,
    pub branch_rows: Seq<BranchRowView>,
}

impl View for BoardMarkup {
    type V = BoardMarkupView;

    open spec fn view(&self) -> BoardMarkupView {
        BoardMarkupView {
            contacts: contact_views(self.contacts@),
            branch_rows: branch_row_views(self.branch_rows@),
        }
    }
}

/// What the contact block `block` offers.
pub open spec fn contact_markup(block: ElementRef<'_>, layout: BoardLayout) -> ContactBlockView {
    ContactBlockView {
        name: field_text(block, layout.name),
        title: field_text(block, layout.title),
    }
}

/// What the contact blocks `blocks` offer, block by block.
pub open spec fn contacts_markup(blocks: Seq<ElementRef<'_>>, layout: BoardLayout) -> Seq<
    ContactBlockView,
> {
    Seq::new(blocks.len(), |i: int| contact_markup(blocks[i], layout))
}

/// What the branch row `row` offers: its first contact block of the parent
/// tier, and all its contact blocks of the child tier.
pub open spec fn branch_row_markup(row: ElementRef<'_>, layout: BoardLayout) -> BranchRowView {
    let parents = element_matches(row, layout.parent);
    BranchRowView {
        parent: if parents.len() == 0 {
            None
        } else {
            Some(contact_markup(parents[0], layout))
        },
        children: contacts_markup(element_matches(row, layout.child), layout),
    }
}

/// What the branch rows `rows` offer, row by row.
pub open spec fn branch_rows_markup(rows: Seq<ElementRef<'_>>, layout: BoardLayout) -> Seq<
    BranchRowView,
> {
    Seq::new(rows.len(), |i: int| branch_row_markup(rows[i], layout))
}

/// What the board container `board` offers: the contact blocks of its flat
/// list and its branch rows, each in the order of the document.
pub open spec fn board_markup(board: ElementRef<'_>, layout: BoardLayout) -> BoardMarkupView {
    BoardMarkupView {
        contacts: contacts_markup(element_matches(board, layout.contact), layout),
        branch_rows: branch_rows_markup(element_matches(board, layout.branch_row), layout),
    }
}

/// Reads what the contact block `block` offers.
pub fn read_contact(block: ElementRef<'_>, layout: &BoardLayout) -> (contact: ContactBlock)
    ensures
        contact@ == contact_markup(block, *layout),
{
    let name = read_field(block, &layout.name);
    let title = read_field(block, &layout.title);
    ContactBlock { name, title }
}

/// Reads what the contact blocks `blocks` offer, in their order.
pub fn read_contacts(blocks: &Vec<ElementRef<'_>>, layout: &BoardLayout) -> (contacts: Vec<
    ContactBlock,
>)
    ensures
        contact_views(contacts@) == contacts_markup(blocks@, *layout),
{
    let mut contacts: Vec<ContactBlock> = Vec::new();
    let mut i: usize = 0;
    while i < blocks.len()
        invariant
            i <= blocks.len(),
            contacts.len() == i,
            forall|j: int| 0 <= j < i ==> contacts[j]@ == contact_markup(blocks[j], *layout),
        decreases blocks.len() - i,
    {
        contacts.push(read_contact(blocks[i], layout));
        i = i + 1;
    }
    assert(contact_views(contacts@) =~= contacts_markup(blocks@, *layout));
    contacts
}

/// Reads what the branch row `row` offers.
pub fn read_branch_row(row: ElementRef<'_>, layout: &BoardLayout) -> (branch_row: BranchRow)
    ensures
        branch_row@ == branch_row_markup(row, *layout),
{
    let parents = select_in_element(row, &layout.parent);
    let parent = if parents.len() == 0 {
        None
    } else {
        Some(read_contact(parents[0], layout))
    };
    let blocks = select_in_element(row, &layout.child);
    let children = read_contacts(&blocks, layout);
    BranchRow { parent, children }
}

/// Reads what the branch rows `rows` offer, in their order.
pub fn read_branch_rows(rows: &Vec<ElementRef<'_>>, layout: &BoardLayout) -> (branch_rows: Vec<
    BranchRow,
>)
    ensures
        branch_row_views(branch_rows@) == branch_rows_markup(rows@, *layout),
{
    let mut branch_rows: Vec<BranchRow> = Vec::new();
    let mut i: usize = 0;
    while i < rows.len()
        invariant
            i <= rows.len(),
            branch_rows.len() == i,
            forall|j: int| 0 <= j < i ==> branch_rows[j]@ == branch_row_markup(rows[j], *layout),
        decreases rows.len() - i,
    {
        branch_rows.push(read_branch_row(rows[i], layout));
        i = i + 1;
    }
    assert(branch_row_views(branch_rows@) =~= branch_rows_markup(rows@, *layout));
    branch_rows
}

/// Reads what the board container `board` offers.
pub fn read_board(board: ElementRef<'_>, layout: &BoardLayout) -> (markup: BoardMarkup)
    ensures
        markup@ == board_markup(board, *layout),
{
    let blocks = select_in_element(board, &layout.contact);
    let contacts = read_contacts(&blocks, layout);
    let rows = select_in_element(board, &layout.branch_row);
    let branch_rows = read_branch_rows(&rows, layout);
    BoardMarkup { contacts, branch_rows }
}

} // verus!
