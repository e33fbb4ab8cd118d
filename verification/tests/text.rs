use colgado::text::{after_prefix, same_text, strip_whitespace};

#[test]
fn same_text_compares_characters() {
    assert!(same_text("", ""));
    assert!(same_text("camión", "camión"));
    assert!(!same_text("camión", "camion"));
    assert!(!same_text("ab", "abc"));
    assert!(!same_text("o\u{301}", "ó"));
}

#[test]
fn after_prefix_cuts_the_prefix_off() {
    assert_eq!(after_prefix("!guess a", "!guess "), Some("a"));
    assert_eq!(after_prefix("!guess ", "!guess "), Some(""));
    assert_eq!(after_prefix("abc", ""), Some("abc"));
    assert_eq!(after_prefix("ñu", "ñ"), Some("u"));
}

#[test]
fn after_prefix_refuses_what_does_not_begin_with_it() {
    assert_eq!(after_prefix("!guessab", "!guess "), None);
    assert_eq!(after_prefix("!gue", "!guess "), None);
    assert_eq!(after_prefix("", "!"), None);
    assert_eq!(after_prefix("ñu", "\u{c3}"), None);
    assert_eq!(after_prefix("aé", "a\u{c3}"), None);
}

#[test]
fn strip_whitespace_keeps_the_rest_in_order() {
    assert_eq!(strip_whitespace("prueba con espacios"), "pruebaconespacios");
    assert_eq!(strip_whitespace(" \t a\nb\r\n"), "ab");
    assert_eq!(strip_whitespace("a\u{a0}b\u{3000}c"), "abc");
    assert_eq!(strip_whitespace(""), "");
    assert_eq!(strip_whitespace("camión"), "camión");
}

#[test]
fn after_prefix_never_cuts_inside_a_character() {
    assert_eq!(after_prefix("éa", "x"), None);
    assert_eq!(after_prefix("\u{1f600}", "ab"), None);
}
