use jsm_form::text::{
    chars_contain, chars_occur_at, contains, contains_ignoring_case, is_blank,
    is_whitespace_char, kept_range, same_text, starts_with, to_chars, trim, trim_bounds,
    whitespace_flags,
};

#[test]
fn contains_finds_substring_anywhere() {
    assert!(contains("hello world", "hello"));
    assert!(contains("hello world", "o w"));
    assert!(contains("hello world", "world"));
    assert!(contains("hello world", ""));
    assert!(contains("", ""));
    assert!(!contains("hello world", "worlds"));
    assert!(!contains("", "a"));
    assert!(!contains("abc", "abcd"));
}

#[test]
fn contains_handles_repeated_prefixes() {
    assert!(contains("aaab", "aab"));
    assert!(!contains("aaaa", "aab"));
}

#[test]
fn starts_with_checks_only_the_beginning() {
    assert!(starts_with("https://id.atlassian.com/login", "https://id.atlassian.com/"));
    assert!(!starts_with("x https://id.atlassian.com/", "https://id.atlassian.com/"));
    assert!(starts_with("abc", ""));
    assert!(!starts_with("ab", "abc"));
}

#[test]
fn chars_occur_at_respects_bounds() {
    let hay = to_chars("abcdef");
    let needle = to_chars("cd");
    assert!(chars_occur_at(&hay, &needle, 2));
    assert!(!chars_occur_at(&hay, &needle, 3));
    assert!(!chars_occur_at(&hay, &needle, 5));
    assert!(!chars_occur_at(&hay, &needle, usize::MAX));
    assert!(chars_contain(&hay, &needle));
}

#[test]
fn to_chars_keeps_every_character() {
    assert_eq!(to_chars("añ€"), vec!['a', 'ñ', '€']);
    assert_eq!(to_chars(""), Vec::<char>::new());
}

#[test]
fn trim_strips_unicode_whitespace() {
    assert_eq!(trim("  alice@acme.com\t\n"), "alice@acme.com");
    assert_eq!(trim("\u{a0}x y\u{2003}"), "x y");
    assert_eq!(trim("none"), "none");
    assert_eq!(trim("   "), "");
    assert_eq!(trim(""), "");
}

#[test]
fn trim_bounds_gives_the_kept_range() {
    assert_eq!(trim_bounds(&to_chars("  ab ")), (2, 4));
    let all_blank = trim_bounds(&to_chars("   "));
    assert_eq!(all_blank.0, all_blank.1);
}

#[test]
fn is_blank_matches_trim() {
    assert!(is_blank(""));
    assert!(is_blank(" \t\r\n"));
    assert!(!is_blank(" a "));
}

#[test]
fn same_text_compares_whole_strings() {
    assert!(same_text("abc", "abc"));
    assert!(same_text("", ""));
    assert!(!same_text("abc", "abd"));
    assert!(!same_text("abc", "ab"));
    assert!(!same_text("ab", "abc"));
}

#[test]
fn contains_ignoring_case_lowers_both_sides() {
    assert!(contains_ignoring_case("Signed in as Alice@Acme.com", "ALICE@acme.COM"));
    assert!(!contains_ignoring_case("Signed in as bob", "alice"));
}

#[test]
fn kept_range_cuts_set_flags_at_both_ends() {
    assert_eq!(kept_range(&vec![true, true, false, true, false, true]), (2, 5));
    assert_eq!(kept_range(&vec![false]), (0, 1));
    assert_eq!(kept_range(&vec![true, true]), (2, 2));
    assert_eq!(kept_range(&Vec::new()), (0, 0));
}

#[test]
fn whitespace_flags_mark_each_character() {
    assert_eq!(whitespace_flags(&to_chars(" a\tb\u{3000}")), vec![true, false, true, false, true]);
}

#[test]
fn whitespace_is_the_white_space_property_for_every_character() {
    let mut count = 0;
    for code in 0..=0x10FFFFu32 {
        if let Some(c) = char::from_u32(code) {
            assert_eq!(is_whitespace_char(c), c.is_whitespace(), "at U+{:04X}", code);
            if is_whitespace_char(c) {
                count += 1;
            }
        }
    }
    assert_eq!(count, 25);
}

#[test]
fn whitespace_edges() {
    for c in ['\t', '\n', '\u{b}', '\u{c}', '\r', ' ', '\u{85}', '\u{a0}', '\u{2000}', '\u{200a}'] {
        assert!(is_whitespace_char(c));
    }
    for c in ['\u{8}', '\u{e}', '!', 'a', '@', '\u{84}', '\u{200b}', '\u{180e}', '\u{3001}'] {
        assert!(!is_whitespace_char(c));
    }
}

#[test]
fn trim_agrees_with_the_standard_trim() {
    for s in ["", " ", "  a  ", "\u{2003}x\u{3000}", "a b", "\n\talice@acme.com\r\n", "\u{200b}a"] {
        assert_eq!(trim(s), s.trim());
        assert_eq!(is_blank(s), s.trim().is_empty());
    }
}
