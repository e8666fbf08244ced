use nico::text::{
    concat3, contains_text, decimal, join, lowercase_contains, signed_decimal, text_eq, trim,
};

/// The characters with the Unicode White_Space property.
fn is_listed(c: char) -> bool {
    matches!(c,
        '\u{9}'..='\u{d}' | '\u{20}' | '\u{85}' | '\u{a0}' | '\u{1680}' | '\u{2000}'..='\u{200a}'
        | '\u{2028}' | '\u{2029}' | '\u{202f}' | '\u{205f}' | '\u{3000}')
}

#[test]
fn whitespace_is_what_the_property_lists() {
    for code in 0..=0x10ffff_u32 {
        if let Some(c) = char::from_u32(code) {
            let trimmed = trim(&c.to_string());
            assert_eq!(trimmed.is_empty(), is_listed(c), "{code:x}");
        }
    }
}

#[test]
fn trimming_leaves_inner_whitespace() {
    assert_eq!(trim("\t a \u{3000} b\n"), "a \u{3000} b");
    assert_eq!(trim(""), "");
    assert_eq!(trim(" \u{200b}"), "\u{200b}");
}

#[test]
fn texts_are_searched_in_small_letters() {
    assert!(lowercase_contains("OOB_NET0", "oob"));
    assert!(lowercase_contains("x-OoB", "oob"));
    assert!(!lowercase_contains("O-OB", "oob"));
    assert!(lowercase_contains("\u{c4}RGER", "\u{e4}rger"));
    assert!(contains_text("abcabd", "abd"));
    assert!(contains_text("abc", ""));
    assert!(!contains_text("ab", "abc"));
}

#[test]
fn numbers_are_written_in_decimal() {
    assert_eq!(decimal(0), "0");
    assert_eq!(decimal(u64::MAX), "18446744073709551615");
    assert_eq!(signed_decimal(-10), "-10");
    assert_eq!(signed_decimal(0), "0");
    assert_eq!(signed_decimal(i64::MIN), "-9223372036854775808");
    assert_eq!(signed_decimal(i64::MAX), "9223372036854775807");
}

#[test]
fn texts_are_put_together() {
    let parts = vec!["a".to_string(), "".to_string(), "b".to_string()];
    assert_eq!(join(&parts, ", "), "a, , b");
    assert_eq!(join(&Vec::new(), ", "), "");
    assert_eq!(concat3("a", "b", "c"), "abc");
    assert!(text_eq("a", "a"));
    assert!(!text_eq("a", "b"));
}
