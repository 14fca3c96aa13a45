use auction_bot::text::char_is_white_space;
use auction_bot::text::parse_i64;
use auction_bot::text::parse_usize;
use auction_bot::text::push_int;
use auction_bot::text::push_nat;
use auction_bot::text::same_text;
use auction_bot::text::split_once;
use auction_bot::text::str_chars;
use auction_bot::text::str_eq_ignore_ascii_case;
use auction_bot::text::trim_str;

#[test]
fn chars_are_read_in_order() {
    assert_eq!(str_chars("aé🔨"), vec!['a', 'é', '🔨']);
    assert!(str_chars("").is_empty());
}

#[test]
fn white_space_is_what_the_standard_library_says() {
    let mut code: u32 = 0;
    while code <= 0x10FFFF {
        if let Some(c) = char::from_u32(code) {
            assert_eq!(char_is_white_space(c), c.is_whitespace(), "U+{:04X}", code);
        }
        code += 1;
    }
}

#[test]
fn trimming_agrees_with_the_standard_library() {
    for text in ["", " ", "a", " a", "a ", "  a b  ", "\t\r\n x \u{2003}", "\u{a0}\u{a0}", "é ", " 🔨"] {
        assert_eq!(trim_str(text), text.trim(), "{:?}", text);
    }
}

#[test]
fn integers_parse_as_in_the_standard_library() {
    let texts = [
        "", "0", "7", "-7", "+7", "007", "-0", "+0", "+", "-", "--1", "+-1", " 1", "1 ", "1a", "a",
        "9223372036854775807", "9223372036854775808", "-9223372036854775808",
        "-9223372036854775809", "99999999999999999999", "１２", "1_000",
    ];
    for text in texts {
        assert_eq!(parse_i64(text), text.parse::<i64>().ok(), "{:?}", text);
    }
}

#[test]
fn offsets_parse_as_in_the_standard_library() {
    let texts = [
        "", "0", "10", "+10", "-0", "-1", "+", "18446744073709551615", "18446744073709551616",
        "4294967295", "4294967296", "1x",
    ];
    for text in texts {
        assert_eq!(parse_usize(text), text.parse::<usize>().ok(), "{:?}", text);
    }
}

#[test]
fn numbers_are_written_in_decimal() {
    for n in [0u64, 1, 9, 10, 11, 99, 100, 1234567890, u64::MAX] {
        let mut out = String::from("n=");
        push_nat(&mut out, n);
        assert_eq!(out, format!("n={}", n));
    }
    for v in [0i64, 1, -1, 10, -10, 42, i64::MAX, i64::MIN] {
        let mut out = String::new();
        push_int(&mut out, v);
        assert_eq!(out, format!("{}", v));
    }
}

#[test]
fn letter_case_is_ignored_for_ascii_only() {
    assert!(str_eq_ignore_ascii_case("Cancel", "cancel"));
    assert!(str_eq_ignore_ascii_case("CANCEL", "cAnCeL"));
    assert!(!str_eq_ignore_ascii_case("cancel", "cancel "));
    assert!(!str_eq_ignore_ascii_case("cancel", "cancal"));
    assert!(!str_eq_ignore_ascii_case("É", "é"));
    assert!(!str_eq_ignore_ascii_case("[", "{"));
    assert!(!str_eq_ignore_ascii_case("@", "`"));
    assert!(str_eq_ignore_ascii_case("", ""));
}

#[test]
fn texts_are_compared_character_by_character() {
    assert!(same_text("menu", "menu"));
    assert!(!same_text("menu", "Menu"));
    assert!(!same_text("menu", "menus"));
    assert!(same_text("", ""));
}

#[test]
fn splits_at_the_first_separator() {
    assert_eq!(split_once("fav:add:5", ':'), Some(("fav", "add:5")));
    assert_eq!(split_once(":x", ':'), Some(("", "x")));
    assert_eq!(split_once("x:", ':'), Some(("x", "")));
    assert_eq!(split_once("é:🔨", ':'), Some(("é", "🔨")));
    assert_eq!(split_once("none", ':'), None);
    assert_eq!(split_once("", ':'), None);
}
