//! The decisions of a run: which company of the search results is taken,
//! and what its board is called.
//!
//! A run fetches the results page at `search_url` for a query, chooses a
//! company with `choose_company`, fetches that company's page, and extracts
//! the board with `company_board`. Fetching is the caller's part, and so is
//! to see with `fits_limit` that a page is short enough for the parser.

use crate::board::board_of_page;
use crate::board::board_outcome;
use crate::board::extract_board;
use crate::error::ExtractionError;
use crate::error::NoResultsError;
use crate::layout::BASE_URL;
use crate::layout::BoardLayout;
use crate::layout::SEARCH_PATH;
use crate::layout::SearchLayout;
use crate::markup::within_limit;
use crate::model::Board;
use crate::model::BoardView;
use crate::model::Company;
use crate::model::company_views;
use crate::model::CompanyView;
use crate::search::candidates;
use crate::search::extract_candidates;
use crate::search::page_entries;
use vstd::prelude::*;
use vstd::string::StringExecFns;

verus! {

/// The address of the search page, without the query.
pub fn search_url() -> (url: String)
    ensures
        url@ == BASE_URL@ + SEARCH_PATH@,
{
    let mut url = BASE_URL.to_owned();
    url.append(SEARCH_PATH);
    url
}

/// The company that a run takes of `found`: the first; none where `found`
/// is empty.
pub open spec fn chosen(found: Seq<CompanyView>) -> Result<CompanyView, NoResultsError> {
    if found.len() == 0 {
        Err(NoResultsError)
    } else {
        Ok(found[0])
    }
}

/// The value of an outcome that holds a company.
pub open spec fn company_outcome(outcome: Result<Company, NoResultsError>) -> Result<
    CompanyView,
    NoResultsError,
> {
    match outcome {
        Ok(company) => Ok(company@),
        Err(error) => Err(error),
    }
}

/// Takes the first of the candidates.
pub fn first_candidate(candidates: Vec<Company>) -> (outcome: Result<Company, NoResultsError>)
    ensures
        company_outcome(outcome) == chosen(company_views(candidates@)),
{
    let mut candidates = candidates;
    if candidates.len() == 0 {
        Err(NoResultsError)
    } else {
        Ok(candidates.remove(0))
    }
}

/// Chooses the company of a run from the markup of the results page: the
/// first candidate that the page makes.
pub fn choose_company(results_page: &str, layout: &SearchLayout) -> (outcome: Result<
    Company,
    NoResultsError,
>)
    requires
        within_limit(results_page@),
    ensures
        company_outcome(outcome) == chosen(candidates(page_entries(results_page@, *layout))),
{
    first_candidate(extract_candidates(results_page, layout))
}

/// `board` under the name `company_name`.
pub open spec fn named(board: BoardView, company_name: Seq<char>) -> BoardView {
    BoardView { company_name, ..board }
}

/// Gives `board` the name of `company`.
pub fn name_board(board: Board, company: &Company) -> (outcome: Board)
    ensures
        outcome@ == named(board@, company@.name),
{
    let mut board = board;
    board.company_name = company.name.clone();
    board
}

/// The board of a run: the board of the page, under the company's name.
pub open spec fn named_board_of_page(
    company_name: Seq<char>,
    markup: Seq<char>,
    layout: BoardLayout,
) -> Result<BoardView, ExtractionError> {
    match board_of_page(markup, layout) {
        Ok(board) => Ok(named(board, company_name)),
        Err(error) => Err(error),
    }
}

/// Extracts the board of `company` from the markup of its board page, and
/// gives it the company's name.
pub fn company_board(company: &Company, board_page: &str, layout: &BoardLayout) -> (outcome: Result<
    Board,
    ExtractionError,
>)
    requires
        within_limit(board_page@),
    ensures
        board_outcome(outcome) == named_board_of_page(company@.name, board_page@, *layout),
{
    match extract_board(board_page, layout) {
        Ok(board) => Ok(name_board(board, company)),
        Err(error) => Err(error),
    }
}

} // verus!
