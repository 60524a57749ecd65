use vinmod_kernel::text::{
    debug_list, decimal_string, join_strings, parse_usize, replace_char, shell_quote, split_on,
    starts_with, trim_text,
};

#[test]
fn decimal_rendering() {
    assert_eq!(decimal_string(0), "0");
    assert_eq!(decimal_string(7), "7");
    assert_eq!(decimal_string(10), "10");
    assert_eq!(decimal_string(1000), "1000");
    assert_eq!(decimal_string(u64::MAX), u64::MAX.to_string());
}

#[test]
fn shell_quoting() {
    assert_eq!(shell_quote("abc"), "'abc'");
    assert_eq!(shell_quote(""), "''");
    assert_eq!(shell_quote("it's"), "'it'\\''s'");
    assert_eq!(shell_quote("a b/c"), "'a b/c'");
}

#[test]
fn character_replacement() {
    assert_eq!(replace_char("a/b/c", '/', "-"), "a-b-c");
    assert_eq!(replace_char("naïve/é", '/', "--"), "naïve--é");
    assert_eq!(replace_char("", '/', "-"), "");
}

#[test]
fn joining() {
    let items = vec!["a".to_string(), "b".to_string(), "c".to_string()];
    assert_eq!(join_strings(&items, "\n"), "a\nb\nc");
    assert_eq!(join_strings(&items[..1], ", "), "a");
    assert_eq!(join_strings(&[], ", "), "");
}

#[test]
fn debug_list_matches_format() {
    let items = vec!["O3".to_string(), "tcp_bbr3".to_string(), "q\"t".to_string()];
    assert_eq!(debug_list(&items), format!("{:?}", items));
    assert_eq!(debug_list(&[]), "[]");
}

#[test]
fn trimming() {
    assert_eq!(trim_text("  x y \n"), "x y");
    assert_eq!(trim_text("\t\n"), "");
}

#[test]
fn prefixes() {
    assert!(starts_with("ERROR: x", "ERROR:"));
    assert!(!starts_with("ERR", "ERROR:"));
    assert!(starts_with("abc", ""));
    assert!(!starts_with("xERROR:", "ERROR:"));
}

#[test]
fn usize_parsing() {
    assert_eq!(parse_usize("3"), Some(3));
    assert_eq!(parse_usize("+12"), Some(12));
    assert_eq!(parse_usize("007"), Some(7));
    assert_eq!(parse_usize(""), None);
    assert_eq!(parse_usize("+"), None);
    assert_eq!(parse_usize("-1"), None);
    assert_eq!(parse_usize("1a"), None);
    assert_eq!(parse_usize(" 1"), None);
    assert_eq!(parse_usize(&usize::MAX.to_string()), Some(usize::MAX));
    assert_eq!(parse_usize("99999999999999999999999"), None);
    for s in ["0", "42", "+5", "x", "", "18446744073709551616"] {
        assert_eq!(parse_usize(s), s.parse::<usize>().ok());
    }
}

#[test]
fn splitting() {
    assert_eq!(split_on("a|b||c", '|'), vec!["a", "b", "", "c"]);
    assert_eq!(split_on("", '|'), vec![""]);
    assert_eq!(split_on("|", '|'), vec!["", ""]);
}

#[test]
fn rendered_numbers_parse_back() {
    for n in [0usize, 9, 10, 4096, usize::MAX] {
        assert_eq!(parse_usize(&decimal_string(n as u64)), Some(n));
    }
}

#[test]
fn trimming_unicode_white_space() {
    assert_eq!(trim_text("\u{3000}\u{85}x y\u{2028}\u{a0}"), "x y");
    assert_eq!(trim_text("\u{200b}x"), "\u{200b}x");
}

