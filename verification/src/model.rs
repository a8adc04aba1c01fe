//! The extracted data: people, boards and companies.

use vstd::prelude::*;

verus! {

/// One person of a board, with the people who report to that person.
#[derive(Debug, PartialEq, Eq)]
pub struct Node {
    /// The person's name, without whitespace around it.
    pub name: String,
    /// The person's title, without whitespace around it; it may be empty.
    pub title: String,
    /// The people who report to the person, in the order of the page.
    pub children: Vec<Node>,
}

/// The mathematical value of a [`Node`].
pub struct NodeView {
    pub name: Seq<char>,
    pub title: Seq<char>,
    pub children: Seq<NodeView>,
}

/// The value of `node`: its texts, and the values of its children in order.
pub open spec fn node_view(node: Node) -> NodeView
    decreases node,
{
    NodeView {
        name: node.name@,
        title: node.title@,
        children: Seq::new(
            node.children@.len(),
            |i: int|
                if 0 <= i < node.children@.len() {
                    node_view(node.children@[i])
                } else {
                    arbitrary()
                },
        ),
    }
}

impl View for Node {
    type V = NodeView;

    open spec fn view(&self) -> NodeView {
        node_view(*self)
    }
}

/// The values of the nodes of `nodes`, in order.
pub open spec fn node_views(nodes: Seq<Node>) -> Seq<NodeView> {
    Seq::new(nodes.len(), |i: int| nodes[i]@)
}

/// What a node holds is the values of its fields.
pub proof fn lemma_node_view(node: Node)
    ensures
        node@.name == node.name@,
        node@.title == node.title@,
        node@.children == node_views(node.children@),
{
    assert(node@.children =~= node_views(node.children@));
}

/// Returns a copy of each node of `nodes`, in order.
pub fn clone_nodes(nodes: &Vec<Node>) -> (copies: Vec<Node>)
    ensures
        node_views(copies@) == node_views(nodes@),
    decreases nodes,
{
    let mut copies: Vec<Node> = Vec::new();
    let mut i: usize = 0;
    while i < nodes.len()
        invariant
            i <= nodes.len(),
            copies.len() == i,
            forall|j: int| 0 <= j < i ==> copies[j]@ == nodes[j]@,
        decreases nodes.len() - i,
    {
        copies.push(nodes[i].clone());
        i = i + 1;
    }
    assert(node_views(copies@) =~= node_views(nodes@));
    copies
}

impl Clone for Node {
    fn clone(&self) -> (copy: Node)
        ensures
            copy@ == self@,
        decreases self,
    {
        let copy = Node {
            name: self.name.clone(),
            title: self.title.clone(),
            children: clone_nodes(&self.children),
        };
        proof {
            lemma_node_view(copy);
            lemma_node_view(*self);
        }
        copy
    }
}

/// The board of one company: its board members, and the managers below them
/// with their direct reports.
#[derive(Debug, PartialEq, Eq)]
pub struct Board {
    /// The name of the company. The extractor leaves it empty: the markup of
    /// a board does not tell it, whoever asked for the board does.
    pub company_name: String,
    /// The members of the board, with no hierarchy among them.
    pub boards: Vec<Node>,
    /// The managers below the board, each with the people who report to
    /// that manager.
    pub members: Vec<Node>,
    /// Kept for the hierarchy of the whole company; always empty.
    pub company_tree: Vec<Node>,
}

/// The mathematical value of a [`Board`].
pub struct BoardView {
    pub company_name: Seq<char>,
    pub boards: Seq<NodeView>,
    pub members: Seq<NodeView>,
    pub company_tree: Seq<NodeView>,
}

impl View for Board {
    type V = BoardView;

    open spec fn view(&self) -> BoardView {
        BoardView {
            company_name: self.company_name@,
            boards: node_views(self.boards@),
            members: node_views(self.members@),
            company_tree: node_views(self.company_tree@),
        }
    }
}

/// Whether `node` has no direct reports.
pub open spec fn is_leaf(node: NodeView) -> bool {
    node.children.len() == 0
}

/// Whether `board` is as deep as a board page is: its board members have
/// no direct reports, the direct reports of its members have none of their
/// own, and it has no company tree.
pub open spec fn is_layered(board: BoardView) -> bool {
    &&& forall|i: int| 0 <= i < board.boards.len() ==> is_leaf(#[trigger] board.boards[i])
    &&& forall|i: int, j: int|
        0 <= i < board.members.len() && 0 <= j < board.members[i].children.len() ==> is_leaf(
            #[trigger] board.members[i].children[j],
        )
    &&& board.company_tree.len() == 0
}

impl Clone for Board {
    fn clone(&self) -> (copy: Board)
        ensures
            copy@ == self@,
    {
        Board {
            company_name: self.company_name.clone(),
            boards: clone_nodes(&self.boards),
            members: clone_nodes(&self.members),
            company_tree: clone_nodes(&self.company_tree),
        }
    }
}

/// A company of the directory: a search result, or a unit of an organisation.
#[derive(Debug, PartialEq, Eq)]
pub struct Company {
    /// The name under which the directory lists the company.
    pub name: String,
    /// The address of the company's board page.
    pub url: String,
    /// Kept for the units below the company; always empty.
    pub children: Vec<Company>,
    /// The company's board, once it is known.
    pub board: Option<Board>,
}

/// The mathematical value of a [`Company`].
pub struct CompanyView {
    pub name: Seq<char>,
    pub url: Seq<char>,
    pub children: Seq<CompanyView>,
    pub board: Option<BoardView>,
}

/// The value of `company`: its texts, the values of its children in order,
/// and the value of its board.
pub open spec fn company_view(company: Company) -> CompanyView
    decreases company,
{
    CompanyView {
        name: company.name@,
        url: company.url@,
        children: Seq::new(
            company.children@.len(),
            |i: int|
                if 0 <= i < company.children@.len() {
                    company_view(company.children@[i])
                } else {
                    arbitrary()
                },
        ),
        board: match company.board {
            Some(board) => Some(board@),
            None => None,
        },
    }
}

impl View for Company {
    type V = CompanyView;

    open spec fn view(&self) -> CompanyView {
        company_view(*self)
    }
}

/// The values of the companies of `companies`, in order.
pub open spec fn company_views(companies: Seq<Company>) -> Seq<CompanyView> {
    Seq::new(companies.len(), |i: int| companies[i]@)
}

/// What a company holds is the values of its fields.
pub proof fn lemma_company_view(company: Company)
    ensures
        company@.name == company.name@,
        company@.url == company.url@,
        company@.children == company_views(company.children@),
        company@.board == match company.board {
            Some(board) => Some(board@),
            None => None,
        },
{
    assert(company@.children =~= company_views(company.children@));
}

/// Returns a copy of each company of `companies`, in order.
pub fn clone_companies(companies: &Vec<Company>) -> (copies: Vec<Company>)
    ensures
        company_views(copies@) == company_views(companies@),
    decreases companies,
{
    let mut copies: Vec<Company> = Vec::new();
    let mut i: usize = 0;
    while i < companies.len()
        invariant
            i <= companies.len(),
            copies.len() == i,
            forall|j: int| 0 <= j < i ==> copies[j]@ == companies[j]@,
        decreases companies.len() - i,
    {
        copies.push(companies[i].clone());
        i = i + 1;
    }
    assert(company_views(copies@) =~= company_views(companies@));
    copies
}

impl Clone for Company {
    fn clone(&self) -> (copy: Company)
        ensures
            copy@ == self@,
        decreases self,
    {
        let copy = Company {
            name: self.name.clone(),
            url: self.url.clone(),
            children: clone_companies(&self.children),
            board: match &self.board {
                Some(board) => Some(board.clone()),
                None => None,
            },
        };
        proof {
            lemma_company_view(copy);
            lemma_company_view(*self);
        }
        copy
    }
}

impl Company {
    /// A company known by its name and the address of its page only.
    pub fn new(name: String, url: String) -> (company: Company)
        ensures
            company@ == (CompanyView {
                name: name@,
                url: url@,
                children: Seq::empty(),
                board: None,
            }),
    {
        let company = Company { name, url, children: Vec::new(), board: None };
        assert(company@.children =~= Seq::empty());
        company
    }
}

} // verus!
