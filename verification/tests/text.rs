use drydock_desktop::text::{
    cat5, contains, decimal_wide, ends_with, is_blank, join, parse_u32, starts_with, text_precedes,
    trim,
};
use drydock_desktop::helpers::is_real_game_lowered;

#[test]
fn white_space_is_what_the_standard_library_says() {
    let mut found = 0;
    for code in 0..=0x10ffffu32 {
        if let Some(c) = char::from_u32(code) {
            let text = c.to_string();
            assert_eq!(is_blank(&text), c.is_whitespace(), "{code:x}");
            if c.is_whitespace() {
                found += 1;
                assert_eq!(trim(&text), "");
            }
        }
    }
    assert_eq!(found, 25);
}

#[test]
fn trimming_agrees_with_the_standard_library() {
    for text in ["", " ", "a", " a b ", "\u{2003}x\u{85}", "\tné\n"] {
        assert_eq!(trim(text), text.trim());
    }
}

#[test]
fn numbers_agree_with_the_standard_library() {
    for text in [
        "", "+", "-", "0", "-0", "+0", "00042", "+7", "++7", "4294967295", "4294967296",
        "99999999999999999999999999", "12a", "1 2", " 1", "٣", "2406770",
    ] {
        assert_eq!(parse_u32(text), text.parse::<u32>().ok(), "{text:?}");
    }
}

#[test]
fn decimals_agree_with_the_standard_library() {
    for n in [0u128, 9, 10, 99, 100, 1234567890, u128::MAX] {
        assert_eq!(decimal_wide(n), n.to_string());
    }
}

#[test]
fn searches_agree_with_the_standard_library() {
    for text in ["", "a", "abcabc", "aab"] {
        for part in ["", "a", "ab", "bc", "aab", "abcd"] {
            assert_eq!(contains(text, part), text.contains(part));
            assert_eq!(starts_with(text, part), text.starts_with(part));
            assert_eq!(ends_with(text, part), text.ends_with(part));
        }
    }
}

#[test]
fn pieces_are_put_together() {
    assert_eq!(cat5("a", "", "é", "c", "d"), "aécd");
    let parts = vec!["x".to_owned(), "y".to_owned(), "z".to_owned()];
    assert_eq!(join(&parts, ", "), "x, y, z");
    assert_eq!(join(&Vec::new(), ", "), "");
}

#[test]
fn texts_are_ordered_as_the_standard_library_orders_them() {
    let words = ["", "a", "ab", "b", "é", "z", "Z"];
    for a in words {
        for b in words {
            let left: Vec<char> = a.chars().collect();
            let right: Vec<char> = b.chars().collect();
            assert_eq!(text_precedes(&left, &right), a < b, "{a} {b}");
        }
    }
}

#[test]
fn a_lowered_name_is_told_apart() {
    assert!(is_real_game_lowered(5, "portal"));
    assert!(!is_real_game_lowered(5, "proton experimental"));
}
