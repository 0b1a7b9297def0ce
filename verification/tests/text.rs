use notification::text::{
    after_prefix, begins_with, bounded, contains_char, contains_text, decimal, is_blank,
    is_white_space, optional_bounded, replace_text, required_bounded, signed_decimal, trim_text,
};

#[test]
fn white_space_is_unicode_white_space() {
    for code in 0..=0x10_ffff_u32 {
        if let Some(c) = char::from_u32(code) {
            assert_eq!(is_white_space(c), c.is_whitespace(), "{code:x}");
        }
    }
}

#[test]
fn trimming_is_that_of_strings() {
    for text in ["", " ", "a", " a ", "\u{3000}a b\u{a0}", "\n\t", "ä\u{2028}"] {
        assert_eq!(trim_text(text), text.trim());
        assert_eq!(is_blank(text), text.trim().is_empty());
    }
}

#[test]
fn lengths_count_characters() {
    assert!(required_bounded("äöü", 3, 3));
    assert!(!required_bounded("äöü", 4, 9));
    assert!(!required_bounded("   ", 1, 9));
    assert!(optional_bounded(&None, 0));
    assert!(optional_bounded(&Some("ä".to_owned()), 1));
    assert!(!optional_bounded(&Some("ää".to_owned()), 1));
    assert_eq!(bounded("äöü", 2), "äö");
    assert_eq!(bounded("äöü", 3), "äöü");
}

#[test]
fn searching_is_that_of_strings() {
    for (text, part) in [
        ("notification.x", "notification."),
        ("aXbXc", "X"),
        ("aaa", "aa"),
        ("", "a"),
        ("abc", "abcd"),
        ("ünü", "ü"),
    ] {
        assert_eq!(contains_text(text, part), text.contains(part));
        assert_eq!(begins_with(text, part), text.starts_with(part));
        assert_eq!(after_prefix(text, part).as_deref(), text.strip_prefix(part));
        assert_eq!(replace_text(text, part, "<>"), text.replace(part, "<>"));
    }
    assert!(contains_text("abc", ""));
    assert!(contains_char("abc", 'b'));
    assert!(!contains_char("abc", 'd'));
}

#[test]
fn numbers_are_written_in_decimal() {
    for value in [0, 9, 10, 160, 1_000_000, u64::MAX] {
        assert_eq!(decimal(value), value.to_string());
    }
    for value in [0, -1, 42, i32::MIN, i32::MAX] {
        assert_eq!(signed_decimal(value), value.to_string());
    }
}
