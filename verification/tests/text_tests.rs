use imgsorter::text::{dec_string, is_wspace, trim};

#[test]
fn trim_removes_surrounding_whitespace() {
    assert_eq!(trim("  Canon EOS 80D \t\n"), "Canon EOS 80D");
}

#[test]
fn trim_keeps_inner_whitespace() {
    assert_eq!(trim(" a b "), "a b");
}

#[test]
fn trim_of_empty_is_empty() {
    assert_eq!(trim(""), "");
}

#[test]
fn trim_of_all_whitespace_is_empty() {
    assert_eq!(trim(" \t\r\n "), "");
}

#[test]
fn trim_without_whitespace_is_identity() {
    assert_eq!(trim("x"), "x");
}

#[test]
fn trim_handles_unicode_whitespace() {
    assert_eq!(trim("\u{3000}a\u{2028}"), "a");
    assert_eq!(trim("\u{a0}\u{1680}b\u{200a}"), "b");
}

#[test]
fn is_wspace_matches_the_unicode_property() {
    for c in [' ', '\t', '\r', '\n', '\u{85}', '\u{a0}', '\u{2000}', '\u{3000}'] {
        assert!(is_wspace(c));
        assert!(c.is_whitespace());
    }
    for c in ['a', '0', '-', '\u{200b}'] {
        assert!(!is_wspace(c));
        assert!(!c.is_whitespace());
    }
}

#[test]
fn dec_string_renders_decimal() {
    assert_eq!(dec_string(0), "0");
    assert_eq!(dec_string(7), "7");
    assert_eq!(dec_string(905), "905");
    assert_eq!(dec_string(u64::MAX), "18446744073709551615");
}
