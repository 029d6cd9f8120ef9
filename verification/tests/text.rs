//! Trimming agrees with the standard library.

use nyaterm::text::{is_white_space, join, join3, same_label, trim, trim_start_dollars};

#[test]
fn white_space_is_unicode_white_space() {
    for code in 0..=0x10ffffu32 {
        if let Some(c) = char::from_u32(code) {
            assert_eq!(is_white_space(c), c.is_whitespace(), "{:x}", code);
        }
    }
}

#[test]
fn trimming_agrees_with_str() {
    for text in [
        "",
        " ",
        "a",
        " a ",
        "\t\u{3000}a b\u{2003}\n",
        "\u{a0}\u{e9}\u{1f600} \u{85}",
        "no space",
    ] {
        assert_eq!(trim(text), text.trim());
    }
}

#[test]
fn dollar_signs_are_dropped_at_the_start_only() {
    for text in ["", "$", "$$", "$A", "$$A$", "A$", " $A", "\u{e9}$"] {
        assert_eq!(trim_start_dollars(text), text.trim_start_matches('$'));
    }
}

#[test]
fn joining_keeps_the_order() {
    assert_eq!(join("a", "b"), "ab");
    assert_eq!(join3("a", "", "\u{e9}c"), "a\u{e9}c");
}

#[test]
fn labels_are_compared_by_presence_and_text() {
    let a = Some("a".to_string());
    assert!(same_label(&None, &None));
    assert!(same_label(&a, &Some("a".to_string())));
    assert!(!same_label(&a, &None));
    assert!(!same_label(&a, &Some("b".to_string())));
}
