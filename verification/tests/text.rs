use omp::text::{
    chars_of, concatenated, contains_in_ascii_lowercase, decimal, find_text, is_white_space, join,
    signed_decimal, trim,
};

#[test]
fn decimals_print_as_in_std() {
    for number in [0u64, 1, 9, 10, 42, 1000, 65535, u64::MAX] {
        assert_eq!(decimal(number), number.to_string());
    }
    for number in [0i32, 7, -1, -40, i32::MAX, i32::MIN] {
        assert_eq!(signed_decimal(number), number.to_string());
    }
}

#[test]
fn different_numbers_print_differently() {
    assert_ne!(decimal(1), decimal(11));
    assert_ne!(decimal(10), decimal(100));
}

#[test]
fn trimming_agrees_with_std() {
    for text in ["", " ", "  a b  ", "\t\n\r x", "x\u{a0}\u{2003}", "\u{85}y\u{3000}", "\u{200b}z"] {
        assert_eq!(trim(text), text.trim());
    }
}

#[test]
fn white_space_agrees_with_std() {
    let mut code: u32 = 0;
    while code < 0x3100 {
        if let Some(character) = char::from_u32(code) {
            assert_eq!(is_white_space(character), character.is_whitespace());
        }
        code += 1;
    }
}

#[test]
fn searching_ignores_ascii_case() {
    assert!(contains_in_ascii_lowercase("NOT AUTHENTICATED", "authenticat"));
    assert!(contains_in_ascii_lowercase("authenticat", "authenticat"));
    assert!(!contains_in_ascii_lowercase("authentic", "authenticat"));
    assert!(contains_in_ascii_lowercase("anything", ""));
    assert!(!contains_in_ascii_lowercase("", "a"));
}

#[test]
fn texts_are_put_together() {
    assert_eq!(concatenated("left ", "right"), "left right");
    assert_eq!(chars_of("a·b"), vec!['a', '·', 'b']);
    let parts = vec!["a".to_string(), "b".to_string(), "c".to_string()];
    assert_eq!(join(&parts, " · "), "a · b · c");
    assert_eq!(join(&vec!["alone".to_string()], "-"), "alone");
    assert_eq!(join(&Vec::new(), "-"), "");
}

#[test]
fn the_first_of_equal_texts_is_found() {
    let items = vec!["x".to_string(), "y".to_string(), "y".to_string()];
    assert_eq!(find_text(&items, "y"), Some(1));
    assert_eq!(find_text(&items, "z"), None);
}
