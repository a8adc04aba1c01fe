use orgboard::text::is_space;
use orgboard::text::trim;

#[test]
fn trim_removes_whitespace_at_both_ends() {
    assert_eq!(trim("  Alice Smith \n"), "Alice Smith");
    assert_eq!(trim("\n\t  Chief Executive Officer"), "Chief Executive Officer");
    assert_eq!(trim("Bob\r\n"), "Bob");
}

#[test]
fn trim_keeps_whitespace_inside() {
    assert_eq!(trim(" a  b\tc "), "a  b\tc");
}

#[test]
fn trim_leaves_trimmed_text_as_it_is() {
    assert_eq!(trim("Carol"), "Carol");
    assert_eq!(trim("x"), "x");
}

#[test]
fn trim_of_blank_text_is_empty() {
    assert_eq!(trim(""), "");
    assert_eq!(trim(" "), "");
    assert_eq!(trim(" \t\r\n\u{3000} "), "");
}

#[test]
fn trim_knows_whitespace_beyond_ascii() {
    assert_eq!(trim("\u{00A0}\u{2003}山田 太郎\u{3000}"), "山田 太郎");
    assert_eq!(trim("\u{0085}x\u{2028}\u{2029}"), "x");
}

#[test]
fn trim_keeps_characters_that_only_look_blank() {
    assert_eq!(trim("\u{200B}a\u{200B}"), "\u{200B}a\u{200B}");
    assert_eq!(trim("\u{FEFF}a"), "\u{FEFF}a");
    assert_eq!(trim("\u{180E}a"), "\u{180E}a");
}

#[test]
fn trim_is_idempotent() {
    for text in ["  a ", "", " \n ", "a b", "\u{3000}取締役\u{3000}"] {
        let once = trim(text);
        assert_eq!(trim(&once), once);
    }
}

#[test]
fn trim_agrees_with_the_standard_library() {
    for text in [
        "",
        " ",
        "a",
        " a",
        "a ",
        "  John  Doe  ",
        "\t\n\u{000B}\u{000C}\r x \u{0085}\u{00A0}",
        "\u{1680}\u{2000}\u{2001}\u{2002}\u{2003}\u{2004}\u{2005}x",
        "x\u{2006}\u{2007}\u{2008}\u{2009}\u{200A}\u{202F}\u{205F}\u{3000}",
        "\u{200B} y \u{200C}",
        "é ",
        " 𝄞",
    ] {
        assert_eq!(trim(text), text.trim());
    }
}

#[test]
fn is_space_agrees_with_the_standard_library_on_every_character() {
    for code in 0u32..=0x10FFFF {
        if let Some(c) = char::from_u32(code) {
            assert_eq!(is_space(c), c.is_whitespace());
        }
    }
}

#[test]
fn is_space_on_named_characters() {
    assert!(is_space(' '));
    assert!(is_space('\n'));
    assert!(is_space('\u{3000}'));
    assert!(!is_space('a'));
    assert!(!is_space('_'));
    assert!(!is_space('\u{200B}'));
    assert!(!is_space('\u{001F}'));
    assert!(!is_space('\u{000E}'));
}
