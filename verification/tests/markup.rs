use orgboard::field::read_field;
use orgboard::markup::fits_limit;
use orgboard::markup::TEXT_LIMIT;

#[test]
fn the_limit_leaves_room_for_four_bytes_a_character() {
    assert_eq!(TEXT_LIMIT, 0x3FFF_FFFF);
    assert!(4 * (TEXT_LIMIT as u64) <= u32::MAX as u64);
}

#[test]
fn ordinary_markup_fits_the_limit() {
    assert!(fits_limit(""));
    assert!(fits_limit("<html><body><div class=\"board\"></div></body></html>"));
    assert!(fits_limit(&"山".repeat(100_000)));
}

#[test]
fn read_field_takes_the_first_of_several_text_runs() {
    let html = "<div id=\"c\"><p class=\"t\">one<b>two</b>three<i>four</i></p></div>";
    let document = scraper::Html::parse_document(html);
    let block = document.select(&scraper::Selector::parse("#c").unwrap()).next().unwrap();
    let selector = scraper::Selector::parse("p.t").unwrap();
    assert_eq!(read_field(block, &selector), Some("one".to_string()));
}

#[test]
fn read_field_looks_for_text_below_nested_elements() {
    let html = "<div id=\"c\"><p class=\"t\"><b><i>deep</i></b>shallow</p></div>";
    let document = scraper::Html::parse_document(html);
    let block = document.select(&scraper::Selector::parse("#c").unwrap()).next().unwrap();
    let selector = scraper::Selector::parse("p.t").unwrap();
    assert_eq!(read_field(block, &selector), Some("deep".to_string()));
}

#[test]
fn read_field_of_an_element_without_text_is_none() {
    let html = "<div id=\"c\"><p class=\"t\"><br><img></p></div>";
    let document = scraper::Html::parse_document(html);
    let block = document.select(&scraper::Selector::parse("#c").unwrap()).next().unwrap();
    let selector = scraper::Selector::parse("p.t").unwrap();
    assert_eq!(read_field(block, &selector), None);
}
