use bettermq::text::{
    chars_of, contains_text, copy_of, decimal_text, ends_with, find_text, joined, precedes,
    rfind_char, rsplit_once, same_text, split_once, starts_with, strip_prefix, strip_suffix,
    trim_brackets, trim_end_of, trim_start_of, trim_whitespace, CharClass,
};

#[test]
fn white_space_is_that_of_std() {
    for n in 0..=0x10ffffu32 {
        if let Some(c) = char::from_u32(n) {
            assert_eq!(CharClass::Whitespace.holds(c), c.is_whitespace(), "{n:x}");
        }
    }
}

#[test]
fn trimming() {
    for s in ["", " ", "\t a b\n", "\u{3000}x\u{2028}", "x", "  x", "x  ", "\u{200b}x"] {
        assert_eq!(trim_whitespace(s), s.trim());
    }
    for s in ["[::1]", "::1", "[[a]", "][", "", "a]b"] {
        assert_eq!(trim_brackets(s), s.trim_matches(['[', ']']));
    }
    assert_eq!(trim_end_of("http://h///", CharClass::Slash), "http://h");
    assert_eq!(trim_end_of("///", CharClass::Slash), "");
    assert_eq!(trim_start_of("//a/", CharClass::Slash), "a/");
}

#[test]
fn searching() {
    assert_eq!(find_text("größe://x", "://"), Some(5));
    assert_eq!(find_text("abc", ""), Some(0));
    assert_eq!(find_text("", "a"), None);
    assert_eq!(find_text("aab", "ab"), Some(1));
    assert!(contains_text("a://b", "://"));
    assert!(!contains_text("a:/b", "://"));
    assert_eq!(rfind_char("a:b:c", ':'), Some(3));
    assert_eq!(rfind_char("abc", ':'), None);
    assert!(same_text("ä", "ä"));
    assert!(!same_text("a", "ab"));
    assert!(!same_text("ab", "aa"));
    assert!(starts_with("abc", "ab") && starts_with("abc", "") && !starts_with("a", "ab"));
    assert!(ends_with("abc", "bc") && ends_with("abc", "") && !ends_with("c", "bc"));
    assert_eq!(chars_of("aä"), vec!['a', 'ä']);
}

#[test]
fn splitting() {
    assert_eq!(split_once("ä.b.c", "."), Some(("ä", "b.c")));
    assert_eq!(split_once("ab", "."), None);
    assert_eq!(split_once("a.__dlq.__dlq", ".__dlq"), Some(("a", ".__dlq")));
    assert_eq!(rsplit_once("ä:b:c", ':'), Some(("ä:b", "c")));
    assert_eq!(rsplit_once("ab", ':'), None);
    assert_eq!(rsplit_once(":", ':'), Some(("", "")));
    assert_eq!(strip_prefix("__group.x", "__group."), Some("x"));
    assert_eq!(strip_prefix("x", "__group."), None);
    assert_eq!(strip_suffix("ü.__dlq", ".__dlq"), Some("ü"));
    assert_eq!(strip_suffix("x", ".__dlq"), None);
}

#[test]
fn order_is_that_of_str() {
    let texts = ["", "a", "ab", "b", "Z", "é", "\u{d7ff}", "\u{e000}", "\u{ffff}", "\u{10000}"];
    for a in texts {
        for b in texts {
            assert_eq!(precedes(a, b), a < b, "{a:?} {b:?}");
        }
    }
}

#[test]
fn decimal_numbers() {
    for n in [0, 1, 9, 10, 42, 100, 443, 65535, 1_000_000, u64::MAX] {
        assert_eq!(decimal_text(n), n.to_string());
    }
}

#[test]
fn joining_and_copying() {
    assert_eq!(joined("a", "ä"), "aä");
    assert_eq!(joined("", ""), "");
    assert_eq!(copy_of(&Some("x".to_string())), Some("x".to_string()));
    assert_eq!(copy_of(&None), None);
}
