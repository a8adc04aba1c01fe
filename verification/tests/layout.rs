use orgboard::error::SetupError;
use orgboard::layout::compile_pattern;
use orgboard::layout::compile_selector;
use orgboard::layout::pattern_from;
use orgboard::layout::BoardLayout;
use orgboard::layout::SearchLayout;
use orgboard::layout::BASE_URL;
use orgboard::layout::PATH_PATTERN;

#[test]
fn board_layout_compiles() {
    assert!(BoardLayout::new().is_ok());
}

#[test]
fn search_layout_compiles() {
    assert!(SearchLayout::new().is_ok());
}

#[test]
fn board_layout_holds_the_selectors_of_the_site() {
    let layout = BoardLayout::new().unwrap();
    assert_eq!(layout.board, scraper::Selector::parse("div.board").unwrap());
    assert_eq!(
        layout.contact,
        scraper::Selector::parse("div.board-column > ul.board-block > li > div").unwrap()
    );
    assert_eq!(layout.name, scraper::Selector::parse("div.oc-name").unwrap());
    assert_eq!(layout.title, scraper::Selector::parse("div.oc-title").unwrap());
    assert_eq!(
        layout.branch_row,
        scraper::Selector::parse("div.board-branch > div.board-branch-row").unwrap()
    );
    assert_eq!(
        layout.parent,
        scraper::Selector::parse("div.ocN1 > ul.board-block > li > div").unwrap()
    );
    assert_eq!(
        layout.child,
        scraper::Selector::parse("div.ocN2 > div > ul.board-block > li > div").unwrap()
    );
}

#[test]
fn search_layout_holds_the_selectors_and_the_pattern_of_the_site() {
    let layout = SearchLayout::new().unwrap();
    assert_eq!(
        layout.entry,
        scraper::Selector::parse("#results > ul > li > div > div > div.companyTitle").unwrap()
    );
    assert_eq!(layout.label, scraper::Selector::parse("span.nom_entr").unwrap());
    assert_eq!(layout.path.as_str(), "'(?<url>[^']*)'");
    assert_eq!(PATH_PATTERN, r"'(?<url>[^']*)'");
}

#[test]
fn base_url_is_the_origin_of_the_site() {
    assert_eq!(BASE_URL, "https://www.theofficialboard.jp");
}

#[test]
fn compile_selector_accepts_a_selector() {
    assert!(compile_selector("div.a > span#b").is_ok());
}

#[test]
fn compile_selector_rejects_what_is_no_selector() {
    assert_eq!(compile_selector("div >").err(), Some(SetupError::InvalidSelector));
    assert_eq!(compile_selector("<p>").err(), Some(SetupError::InvalidSelector));
}

#[test]
fn compile_pattern_accepts_a_pattern() {
    let pattern = compile_pattern("a(b)c").unwrap();
    assert_eq!(pattern.as_str(), "a(b)c");
}

#[test]
fn compile_pattern_rejects_what_is_no_pattern() {
    assert_eq!(compile_pattern("a(b").err(), Some(SetupError::InvalidPattern));
}

#[test]
fn compile_pattern_keeps_the_text_of_the_pattern() {
    for text in ["'(?<url>[^']*)'", "", "a|b", "\\d+"] {
        assert_eq!(compile_pattern(text).unwrap().as_str(), text);
    }
}

#[test]
fn compile_pattern_rejects_a_pattern_that_is_too_big() {
    assert_eq!(compile_pattern("\\w{1000}{1000}").err(), Some(SetupError::InvalidPattern));
}

#[test]
fn pattern_from_hands_on_the_pattern_or_reports_that_there_is_none() {
    let pattern = pattern_from(regex::Regex::new("a+")).unwrap();
    assert_eq!(pattern.as_str(), "a+");
    assert!(pattern.is_match("caab"));
    assert_eq!(pattern_from(regex::Regex::new("a(")).err(), Some(SetupError::InvalidPattern));
}
