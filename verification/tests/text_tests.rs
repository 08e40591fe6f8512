use ticketing::text::{
    chars_of, clone_list, clone_optional, contains, contains_ignoring_letter_case, decimal_string,
    is_blank, list_any_contains_ignoring_case, list_contains, list_without, to_lowercase,
    white_space,
};

#[test]
fn blank_texts_are_recognised() {
    assert!(is_blank(""));
    assert!(is_blank("   "));
    assert!(is_blank(" \t\r\n"));
    assert!(is_blank("\u{00A0}\u{2003}\u{3000}\u{0085}"));
    assert!(!is_blank(" a "));
    assert!(!is_blank("\u{200B}"));
    assert!(!is_blank("0"));
}

#[test]
fn blank_agrees_with_trim() {
    let samples =
        ["", " ", "x", "\u{1680}", "\u{2028}\u{2029}", " \u{202F}\u{205F} ", "a b", "\u{FEFF}"];
    for s in samples {
        assert_eq!(is_blank(s), s.trim().is_empty(), "{:?}", s);
    }
}

#[test]
fn white_space_agrees_with_std_on_every_character() {
    let mut code: u32 = 0;
    while code <= 0x10FFFF {
        if let Some(c) = char::from_u32(code) {
            assert_eq!(white_space(c), c.is_whitespace(), "U+{:04X}", code);
        }
        code += 1;
    }
}

#[test]
fn chars_of_keeps_every_character_in_order() {
    assert_eq!(chars_of("héllo"), vec!['h', 'é', 'l', 'l', 'o']);
    assert_eq!(chars_of(""), Vec::<char>::new());
}

#[test]
fn substring_search_finds_parts_anywhere() {
    assert!(contains("rock festival", "rock"));
    assert!(contains("rock festival", "festival"));
    assert!(contains("rock festival", "k f"));
    assert!(contains("rock festival", ""));
    assert!(contains("", ""));
    assert!(!contains("", "a"));
    assert!(!contains("rock", "rocks"));
    assert!(!contains("rock festival", "jazz"));
    assert!(contains("aaab", "aab"));
    assert!(contains("grüße", "üß"));
}

#[test]
fn lowercase_is_the_unicode_mapping() {
    assert_eq!(to_lowercase("Rock FESTIVAL"), "rock festival");
    assert_eq!(to_lowercase("ÀÉÎ"), "àéî");
    assert_eq!(to_lowercase("already lower"), "already lower");
}

#[test]
fn search_ignoring_case() {
    assert!(contains_ignoring_letter_case("Summer ROCK Night", "rock"));
    assert!(contains_ignoring_letter_case("summer rock night", "ROCK"));
    assert!(!contains_ignoring_letter_case("summer rock night", "jazz"));
    let tags = vec!["Outdoor".to_string(), "Live-Music".to_string()];
    assert!(list_any_contains_ignoring_case(&tags, "MUSIC"));
    assert!(!list_any_contains_ignoring_case(&tags, "indoor"));
    assert!(!list_any_contains_ignoring_case(&Vec::new(), "x"));
}

#[test]
fn decimal_text_of_integers() {
    assert_eq!(decimal_string(0), "0");
    assert_eq!(decimal_string(7), "7");
    assert_eq!(decimal_string(10), "10");
    assert_eq!(decimal_string(4096), "4096");
    assert_eq!(decimal_string(-1), "-1");
    assert_eq!(decimal_string(-250), "-250");
    assert_eq!(decimal_string(i64::MAX), "9223372036854775807");
    assert_eq!(decimal_string(i64::MIN), "-9223372036854775808");
}

#[test]
fn decimal_text_agrees_with_std() {
    let samples: [i64; 9] = [1, 9, 99, 100, 101, -9, -10, 1_000_000_007, -4_294_967_296];
    for n in samples {
        assert_eq!(decimal_string(n), n.to_string());
    }
}

#[test]
fn lists_of_texts() {
    let list = vec!["music".to_string(), "art".to_string(), "music".to_string()];
    assert!(list_contains(&list, "art"));
    assert!(!list_contains(&list, "Art"));
    assert!(!list_contains(&Vec::new(), "art"));
    assert_eq!(list_without(&list, "music"), vec!["art".to_string()]);
    assert_eq!(list_without(&list, "dance"), list);
    assert_eq!(clone_list(&list), list);
    assert_eq!(clone_optional(&Some("x".to_string())), Some("x".to_string()));
    assert_eq!(clone_optional(&None), None);
}
