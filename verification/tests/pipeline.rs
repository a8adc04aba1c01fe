use orgboard::error::ExtractionError;
use orgboard::error::NoResultsError;
use orgboard::layout::BoardLayout;
use orgboard::layout::SearchLayout;
use orgboard::model::Board;
use orgboard::model::Company;
use orgboard::model::Node;
use orgboard::pipeline::choose_company;
use orgboard::pipeline::company_board;
use orgboard::pipeline::first_candidate;
use orgboard::pipeline::name_board;
use orgboard::pipeline::search_url;

fn company(name: &str, url: &str) -> Company {
    Company::new(name.to_string(), url.to_string())
}

fn leaf(name: &str, title: &str) -> Node {
    Node { name: name.to_string(), title: title.to_string(), children: vec![] }
}

const RESULTS: &str = "<div id=\"results\"><ul>\
    <li><div><div><div class=\"companyTitle\" onclick=\"x()\"><span class=\"nom_entr\">Skipped</span></div></div></div></li>\
    <li><div><div><div class=\"companyTitle\" onclick=\"go('/org-chart/acme')\"><span class=\"nom_entr\">Acme</span></div></div></div></li>\
    <li><div><div><div class=\"companyTitle\" onclick=\"go('/org-chart/zeta')\"><span class=\"nom_entr\">Zeta</span></div></div></div></li>\
    </ul></div>";

const BOARD: &str = "<div class=\"board\"><div class=\"board-column\"><ul class=\"board-block\">\
    <li><div><div class=\"oc-name\"> Alice </div><div class=\"oc-title\"> CEO </div></div></li>\
    </ul></div></div>";

#[test]
fn search_url_is_the_search_page_of_the_site() {
    assert_eq!(search_url(), "https://www.theofficialboard.jp/company/search");
}

#[test]
fn first_candidate_is_the_first() {
    let found = vec![company("A", "/a"), company("B", "/b")];
    assert_eq!(first_candidate(found), Ok(company("A", "/a")));
    assert_eq!(first_candidate(vec![company("B", "/b")]), Ok(company("B", "/b")));
}

#[test]
fn no_candidates_are_no_results() {
    assert_eq!(first_candidate(vec![]), Err(NoResultsError));
}

#[test]
fn choose_company_takes_the_first_candidate_of_the_page() {
    let layout = SearchLayout::new().unwrap();
    assert_eq!(
        choose_company(RESULTS, &layout),
        Ok(company("Acme", "https://www.theofficialboard.jp/org-chart/acme"))
    );
}

#[test]
fn choose_company_finds_no_results_on_a_page_without_candidates() {
    let layout = SearchLayout::new().unwrap();
    assert_eq!(choose_company("<div id=\"results\"><ul></ul></div>", &layout), Err(NoResultsError));
    assert_eq!(choose_company("", &layout), Err(NoResultsError));
}

#[test]
fn name_board_sets_the_company_name_and_nothing_else() {
    let board = Board {
        company_name: String::new(),
        boards: vec![leaf("Alice", "CEO")],
        members: vec![Node {
            name: "Carol".to_string(),
            title: "VP".to_string(),
            children: vec![leaf("Dan", "Lead")],
        }],
        company_tree: vec![],
    };
    let named = name_board(board.clone(), &company("Acme", "/acme"));
    assert_eq!(named.company_name, "Acme");
    assert_eq!(named.boards, board.boards);
    assert_eq!(named.members, board.members);
    assert_eq!(named.company_tree, board.company_tree);
}

#[test]
fn company_board_is_the_board_of_the_page_under_the_name_of_the_company() {
    let layout = BoardLayout::new().unwrap();
    assert_eq!(
        company_board(&company("Acme", "/acme"), BOARD, &layout),
        Ok(Board {
            company_name: "Acme".to_string(),
            boards: vec![leaf("Alice", "CEO")],
            members: vec![],
            company_tree: vec![],
        })
    );
}

#[test]
fn company_board_hands_on_the_error_of_the_extraction() {
    let layout = BoardLayout::new().unwrap();
    assert_eq!(
        company_board(&company("Acme", "/acme"), "<p>moved</p>", &layout),
        Err(ExtractionError::MissingBoard)
    );
}

#[test]
fn a_run_from_results_page_to_named_board() {
    let company = choose_company(RESULTS, &SearchLayout::new().unwrap()).unwrap();
    assert_eq!(company.url, "https://www.theofficialboard.jp/org-chart/acme");
    let board = company_board(&company, BOARD, &BoardLayout::new().unwrap()).unwrap();
    assert_eq!(board.company_name, "Acme");
    assert_eq!(board.boards, vec![leaf("Alice", "CEO")]);
}
