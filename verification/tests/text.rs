use apllodb_shared_components::text;
use apllodb_shared_components::text::{
    decimal_text, int_text_of, lex_order_of, str_equal, string_from_chars, trimmed_string,
};

#[test]
fn decimal_texts() {
    assert_eq!(decimal_text(0), "0");
    assert_eq!(decimal_text(1234567890), "1234567890");
    assert_eq!(decimal_text(u64::MAX), u64::MAX.to_string());
    assert_eq!(int_text_of(-42), "-42");
    assert_eq!(int_text_of(i64::MIN), i64::MIN.to_string());
    assert_eq!(int_text_of(7), "7");
}

#[test]
fn trimming_and_slicing() {
    let v: Vec<char> = "  ab c \t".chars().collect();
    assert_eq!(trimmed_string(&v, 0, v.len()), "ab c");
    assert_eq!(trimmed_string(&v, 0, 2), "");
    assert_eq!(string_from_chars(&v, 2, 4), "ab");
    assert_eq!(text::concat("ab".to_string(), "cd"), "abcd");
}

#[test]
fn comparing_texts() {
    assert!(str_equal("abc", "abc"));
    assert!(!str_equal("abc", "abd"));
    assert!(!str_equal("ab", "abc"));
    assert_eq!(lex_order_of("a", "b"), -1);
    assert_eq!(lex_order_of("b", "a"), 1);
    assert_eq!(lex_order_of("ab", "ab"), 0);
    assert_eq!(lex_order_of("ab", "abc"), -1);
}

#[test]
fn whitespace_is_std_whitespace() {
    for u in 0u32..=0x10ffff {
        if let Some(c) = char::from_u32(u) {
            assert_eq!(apllodb_shared_components::text::char_is_whitespace(c), c.is_whitespace(), "{:x}", u);
        }
    }
}
