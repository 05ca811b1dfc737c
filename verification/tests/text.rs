use ml_stack::text::{
    chars_of,
    is_blank,
    is_capital,
    to_lower,
    clone_optional,
    decimal,
    ends_with,
    find_char,
    parse_unsigned,
    replace_all,
    same_text,
    starts_with,
    string_of,
    trim,
    trim_range,
};

#[test]
fn chars_and_strings_convert_both_ways() {
    assert_eq!(chars_of("aé"), vec!['a', 'é']);
    assert!(chars_of("").is_empty());
    assert_eq!(string_of(&vec!['a', 'b', 'c', 'd'], 1, 3), "bc");
    assert_eq!(string_of(&vec!['a', 'b'], 2, 2), "");
    assert_eq!(string_of(&vec!['a', 'b'], 0, 2), "ab");
}

#[test]
fn text_comparisons() {
    assert!(same_text("a", "a"));
    assert!(!same_text("a", "A"));
    assert!(same_text("", ""));
    assert!(starts_with("demo-a", "demo-"));
    assert!(starts_with("demo-", "demo-"));
    assert!(starts_with("x", ""));
    assert!(!starts_with("demo", "demo-"));
    assert!(!starts_with("xdemo-a", "demo-"));
    assert!(ends_with("a.toml", ".toml"));
    assert!(ends_with("a", ""));
    assert!(!ends_with("a.toml.x", ".toml"));
    assert!(!ends_with("oml", ".toml"));
}

#[test]
fn clone_optional_copies() {
    assert_eq!(clone_optional(&Some("x".to_string())), Some("x".to_string()));
    assert_eq!(clone_optional(&None), None);
}

#[test]
fn find_char_gives_the_first_position() {
    assert_eq!(find_char(&vec!['a', '@', 'b', '@'], '@'), Some(1));
    assert_eq!(find_char(&vec!['@'], '@'), Some(0));
    assert_eq!(find_char(&vec!['a', 'b'], '@'), None);
    assert_eq!(find_char(&vec![], '@'), None);
}

#[test]
fn replace_all_goes_from_the_left() {
    assert_eq!(replace_all("aaa", "aa", "b"), "ba");
    assert_eq!(replace_all("abcabc", "bc", ""), "aa");
    assert_eq!(replace_all("abc", "abcd", "x"), "abc");
    assert_eq!(replace_all("abc", "", "x"), "abc");
    assert_eq!(replace_all("", "a", "x"), "");
    assert_eq!(replace_all("a.b.c", ".", ".."), "a..b..c");
}

#[test]
fn trim_removes_white_space_at_both_ends() {
    assert_eq!(trim("  a b \n"), "a b");
    assert_eq!(trim("\t\r\n"), "");
    assert_eq!(trim(""), "");
    assert_eq!(trim("x"), "x");
    assert_eq!(trim_range(&vec![' ', 'a', ' ', 'b', ' '], 1, 5), "a b");
    assert_eq!(trim_range(&vec![' ', 'a', ' ', 'b', ' '], 2, 3), "");
    for text in [" a", "a ", " \u{a0}a\u{2028} ", "a\u{200b}", "\u{feff}a"] {
        assert_eq!(trim(text), text.trim());
    }
}

#[test]
fn decimal_writes_digits() {
    assert_eq!(decimal(0), "0");
    assert_eq!(decimal(7), "7");
    assert_eq!(decimal(10), "10");
    assert_eq!(decimal(5000), "5000");
    assert_eq!(decimal(1234567890), "1234567890");
    assert_eq!(decimal(u64::MAX), "18446744073709551615");
}

#[test]
fn parse_unsigned_reads_digits() {
    assert_eq!(parse_unsigned("0"), Some(0));
    assert_eq!(parse_unsigned("42"), Some(42));
    assert_eq!(parse_unsigned("+42"), Some(42));
    assert_eq!(parse_unsigned("000"), Some(0));
    assert_eq!(parse_unsigned("18446744073709551615"), Some(usize::MAX));
    assert_eq!(parse_unsigned("18446744073709551616"), None);
    assert_eq!(parse_unsigned("184467440737095516150"), None);
    assert_eq!(parse_unsigned(""), None);
    assert_eq!(parse_unsigned("+"), None);
    assert_eq!(parse_unsigned("-0"), None);
    assert_eq!(parse_unsigned("4 2"), None);
    assert_eq!(parse_unsigned("42x"), None);
    assert_eq!(parse_unsigned("+-1"), None);
}

#[test]
fn ascii_characters_agree_with_the_standard_library() {
    for code in 0u8..128 {
        let c = code as char;
        assert_eq!(is_capital(c), c.is_uppercase());
        assert_eq!(is_blank(c), c.is_whitespace());
        assert_eq!(to_lower(&c.to_string()), c.to_lowercase().to_string());
        assert_eq!(to_lower(&c.to_string()), c.to_ascii_lowercase().to_string());
    }
}

#[test]
fn other_characters_follow_unicode() {
    for c in ['É', 'é', 'Σ', 'ß', 'ℂ', '\u{a0}', '\u{2003}', '\u{200b}', '中', 'İ'] {
        assert_eq!(is_capital(c), c.is_uppercase());
        assert_eq!(is_blank(c), c.is_whitespace());
    }
    for text in ["ÉCOLE", "ΟΔΥΣΣΕΥΣ", "Straße", "İstanbul", "ABC déf", "中文 ABC"] {
        assert_eq!(to_lower(text), text.to_lowercase());
    }
}

#[test]
fn to_lower_of_ascii_text() {
    assert_eq!(to_lower("Hello, World! 123 [A-Z] @`{"), "hello, world! 123 [a-z] @`{");
    assert_eq!(to_lower(""), "");
    assert_eq!(to_lower("already lower"), "already lower");
}
