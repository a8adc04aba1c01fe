//! Where the directory site keeps what in its markup: the selectors of the
//! board page and of the search results page.

use crate::error::SetupError;
use crate::markup::parsed_selector;
use crate::markup::within_limit;
use crate::pattern::pattern_text;
use regex::Error;
use regex::Regex;
use scraper::Selector;
use vstd::prelude::*;

verus! {

/// The origin of the directory site.
pub const BASE_URL: &'static str = "https://www.theofficialboard.jp";

/// The path of the search page below the origin.
pub const SEARCH_PATH: &'static str = "/company/search";

/// The name of the search page's query parameter.
pub const SEARCH_PARAMETER: &'static str = "q";

/// The container of a company's board.
pub const BOARD_CSS: &'static str = "div.board";

/// A contact block of the flat board list: column, list, item, block.
pub const CONTACT_CSS: &'static str = "div.board-column > ul.board-block > li > div";

/// The name element of a contact block.
pub const NAME_CSS: &'static str = "div.oc-name";

/// The title element of a contact block.
pub const TITLE_CSS: &'static str = "div.oc-title";

/// A branch row: one manager with that manager's direct reports.
pub const BRANCH_ROW_CSS: &'static str = "div.board-branch > div.board-branch-row";

/// The contact block of a branch row's manager, on the first level.
pub const PARENT_CSS: &'static str = "div.ocN1 > ul.board-block > li > div";

/// A contact block of a direct report, on the second level.
pub const CHILD_CSS: &'static str = "div.ocN2 > div > ul.board-block > li > div";

/// An entry of the search results.
pub const ENTRY_CSS: &'static str = "#results > ul > li > div > div > div.companyTitle";

/// The label of a search result that shows the company's name.
pub const LABEL_CSS: &'static str = "span.nom_entr";

/// The attribute of a search result that holds the action on a click.
pub const ACTION_ATTRIBUTE: &'static str = "onclick";

/// A path in single quotes, as the action of a search result embeds it.
pub const PATH_PATTERN: &'static str = "'(?<url>[^']*)'";

/// The name of the group of `PATH_PATTERN` that holds the path.
pub const PATH_GROUP: &'static str = "url";

/// Compiles `css` to a selector.
pub fn compile_selector(css: &str) -> (outcome: Result<Selector, SetupError>)
    requires
        within_limit(css@),
    ensures
        match outcome {
            Ok(selector) => parsed_selector(css@) == Some(selector),
            Err(error) => error == SetupError::InvalidSelector && parsed_selector(css@) is None,
        },
{
    match Selector::parse(css) {
        Ok(selector) => Ok(selector),
        Err(_) => Err(SetupError::InvalidSelector),
    }
}

/// What becomes of a compiled pattern: the pattern itself, or
/// `InvalidPattern` where there is none.
pub fn pattern_from(compiled: Result<Regex, Error>) -> (outcome: Result<Regex, SetupError>)
    ensures
        match compiled {
            Ok(pattern) => outcome == Ok::<Regex, SetupError>(pattern),
            Err(_) => outcome == Err::<Regex, SetupError>(SetupError::InvalidPattern),
        },
{
    match compiled {
        Ok(pattern) => Ok(pattern),
        Err(_) => Err(SetupError::InvalidPattern),
    }
}

/// Compiles `text` to a pattern. Whether `text` compiles is for the
/// `regex` crate to say; a pattern that comes back is that of `text`.
pub fn compile_pattern(text: &str) -> (outcome: Result<Regex, SetupError>)
    ensures
        match outcome {
            Ok(pattern) => pattern_text(pattern) == text@,
            Err(error) => error == SetupError::InvalidPattern,
        },
{
    pattern_from(Regex::new(text))
}

/// The compiled selectors of a board page.
#[derive(Debug)]
pub struct BoardLayout {
    /// The board container in the document.
    pub board: Selector,
    /// The contact blocks of the flat list, in the board.
    pub contact: Selector,
    /// The name element, in a contact block.
    pub name: Selector,
    /// The title element, in a contact block.
    pub title: Selector,
    /// The branch rows, in the board.
    pub branch_row: Selector,
    /// The manager's contact block, in a branch row.
    pub parent: Selector,
    /// The contact blocks of the direct reports, in a branch row.
    pub child: Selector,
}

impl BoardLayout {
    /// Whether every selector of the site's board page compiles.
    pub open spec fn compiles() -> bool {
        &&& parsed_selector(BOARD_CSS@) is Some
        &&& parsed_selector(CONTACT_CSS@) is Some
        &&& parsed_selector(NAME_CSS@) is Some
        &&& parsed_selector(TITLE_CSS@) is Some
        &&& parsed_selector(BRANCH_ROW_CSS@) is Some
        &&& parsed_selector(PARENT_CSS@) is Some
        &&& parsed_selector(CHILD_CSS@) is Some
    }

    /// Whether this layout holds the selectors of the site's board page.
    pub open spec fn is_official(self) -> bool {
        &&& parsed_selector(BOARD_CSS@) == Some(self.board)
        &&& parsed_selector(CONTACT_CSS@) == Some(self.contact)
        &&& parsed_selector(NAME_CSS@) == Some(self.name)
        &&& parsed_selector(TITLE_CSS@) == Some(self.title)
        &&& parsed_selector(BRANCH_ROW_CSS@) == Some(self.branch_row)
        &&& parsed_selector(PARENT_CSS@) == Some(self.parent)
        &&& parsed_selector(CHILD_CSS@) == Some(self.child)
    }

    /// Compiles the selectors of the site's board page.
    pub fn new() -> (outcome: Result<BoardLayout, SetupError>)
        ensures
            outcome is Ok <==> Self::compiles(),
            match outcome {
                Ok(layout) => layout.is_official(),
                Err(error) => error == SetupError::InvalidSelector,
            },
    {
        proof {
            lemma_selectors_within_limit();
        }
        let board = compile_selector(BOARD_CSS)?;
        let contact = compile_selector(CONTACT_CSS)?;
        let name = compile_selector(NAME_CSS)?;
        let title = compile_selector(TITLE_CSS)?;
        let branch_row = compile_selector(BRANCH_ROW_CSS)?;
        let parent = compile_selector(PARENT_CSS)?;
        let child = compile_selector(CHILD_CSS)?;
        Ok(BoardLayout { board, contact, name, title, branch_row, parent, child })
    }
}

/// The compiled selectors and pattern of a search results page.
#[derive(Debug)]
pub struct SearchLayout {
    /// The entries of the results, in the document.
    pub entry: Selector,
    /// The label with the company's name, in an entry.
    pub label: Selector,
    /// The quoted path in an entry's action.
    pub path: Regex,
}

impl SearchLayout {
    /// Whether the selectors of the site's search results page compile.
    pub open spec fn selectors_compile() -> bool {
        &&& parsed_selector(ENTRY_CSS@) is Some
        &&& parsed_selector(LABEL_CSS@) is Some
    }

    /// Whether this layout holds the selectors and the pattern of the site's
    /// search results page.
    pub open spec fn is_official(self) -> bool {
        &&& parsed_selector(ENTRY_CSS@) == Some(self.entry)
        &&& parsed_selector(LABEL_CSS@) == Some(self.label)
        &&& pattern_text(self.path) == PATH_PATTERN@
    }

    /// Compiles the selectors and the pattern of the site's search results
    /// page. Where a selector does not compile, that is the error; where
    /// both do, the outcome is as the pattern's compilation goes.
    pub fn new() -> (outcome: Result<SearchLayout, SetupError>)
        ensures
            match outcome {
                Ok(layout) => layout.is_official(),
                Err(error) => error == (if Self::selectors_compile() {
                    SetupError::InvalidPattern
                } else {
                    SetupError::InvalidSelector
                }),
            },
            !Self::selectors_compile() ==> outcome is Err,
    {
        proof {
            lemma_selectors_within_limit();
        }
        let entry = compile_selector(ENTRY_CSS)?;
        let label = compile_selector(LABEL_CSS)?;
        let path = compile_pattern(PATH_PATTERN)?;
        Ok(SearchLayout { entry, label, path })
    }
}

/// The selectors of the site are short enough for the parser.
pub proof fn lemma_selectors_within_limit()
    ensures
        within_limit(BOARD_CSS@),
        within_limit(CONTACT_CSS@),
        within_limit(NAME_CSS@),
        within_limit(TITLE_CSS@),
        within_limit(BRANCH_ROW_CSS@),
        within_limit(PARENT_CSS@),
        within_limit(CHILD_CSS@),
        within_limit(ENTRY_CSS@),
        within_limit(LABEL_CSS@),
{
    reveal_strlit("div.board");
    reveal_strlit("div.board-column > ul.board-block > li > div");
    reveal_strlit("div.oc-name");
    reveal_strlit("div.oc-title");
    reveal_strlit("div.board-branch > div.board-branch-row");
    reveal_strlit("div.ocN1 > ul.board-block > li > div");
    reveal_strlit("div.ocN2 > div > ul.board-block > li > div");
    reveal_strlit("#results > ul > li > div > div > div.companyTitle");
    reveal_strlit("span.nom_entr");
}

} // verus!
