use vagga_core::text::{char_is_alphanumeric, char_is_numeric, char_is_whitespace};

#[test]
fn whitespace_agrees_with_std_on_every_char() {
    for n in 0u32..=0x10ffff {
        if let Some(c) = char::from_u32(n) {
            assert_eq!(char_is_whitespace(c), c.is_whitespace(), "{:?}", c);
        }
    }
}

#[test]
fn ascii_digits_and_letters() {
    assert!(char_is_numeric('7'));
    assert!(!char_is_numeric('x'));
    assert!(char_is_alphanumeric('x'));
    assert!(char_is_alphanumeric('Q'));
    assert!(!char_is_alphanumeric('-'));
    assert!(!char_is_whitespace('\u{200b}'));
    assert!(char_is_whitespace('\u{3000}'));
}
