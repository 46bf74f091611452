use visual_novel::text::{after_char, before_char, chars_of, find_char, is_whitespace, replace_braces, splits_once, trim_str};

#[test]
fn trim_removes_unicode_white_space() {
    assert_eq!(trim_str("  a b \n"), "a b");
    assert_eq!(trim_str("\u{3000}слово\u{a0}"), "слово");
    assert_eq!(trim_str(" \t "), "");
    assert_eq!(trim_str("x"), "x");
}

#[test]
fn whitespace_matches_std() {
    for c in ['\t', '\n', ' ', '\u{85}', '\u{a0}', '\u{2003}', '\u{3000}', 'a', 'Я', '\u{200b}'] {
        assert_eq!(is_whitespace(c), c.is_whitespace());
    }
}

#[test]
fn before_and_after_first_char() {
    assert_eq!(before_char("a = b = c", '='), "a ");
    assert_eq!(after_char("a = b = c", '='), " b = c");
    assert_eq!(before_char("abc", '='), "abc");
    assert_eq!(after_char("abc", '='), "");
    assert!(splits_once("a=b", '='));
    assert!(!splits_once("a=b=c", '='));
    assert!(!splits_once("ab", '='));
}

#[test]
fn find_in_chars() {
    let v = chars_of("привет");
    assert_eq!(v.len(), 6);
    assert_eq!(find_char(&v, 'в'), 3);
    assert_eq!(find_char(&v, 'z'), 6);
}

#[test]
fn braces_are_replaced_like_std() {
    for s in ["Привет, {}!", "{}{}", "{{}}", "{", "}{", "no name", "{}"] {
        assert_eq!(replace_braces(s, "Ира"), s.replace("{}", "Ира"));
    }
    assert_eq!(replace_braces("{} и {}", "Ян"), "Ян и Ян");
}
