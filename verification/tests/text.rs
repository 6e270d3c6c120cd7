use spotify_web_api::text::{
    self, i64_to_string, join_comma, parse_integer, parse_u64, parse_usize, split_whitespace,
    str_eq, string_of_bytes, strip_prefix, u64_to_string, usize_to_string,
};

#[test]
fn numbers_in_decimal() {
    assert_eq!(u64_to_string(0), "0");
    assert_eq!(u64_to_string(9), "9");
    assert_eq!(u64_to_string(10), "10");
    assert_eq!(u64_to_string(1234567890), "1234567890");
    assert_eq!(u64_to_string(u64::MAX), u64::MAX.to_string());
    assert_eq!(usize_to_string(50), "50");
    assert_eq!(i64_to_string(-1), "-1");
    assert_eq!(i64_to_string(i64::MIN), i64::MIN.to_string());
}

#[test]
fn numerals_are_read_back() {
    assert_eq!(parse_u64("0"), Some(0));
    assert_eq!(parse_u64("007"), Some(7));
    assert_eq!(parse_u64("18446744073709551615"), Some(u64::MAX));
    assert_eq!(parse_u64("18446744073709551616"), None);
    assert_eq!(parse_u64("99999999999999999999999"), None);
    assert_eq!(parse_u64(""), None);
    assert_eq!(parse_u64("12a"), None);
    assert_eq!(parse_u64("-1"), None);
    assert_eq!(parse_u64("+1"), None);
    assert_eq!(parse_usize("50"), Some(50));
    assert_eq!(parse_usize("5 0"), None);
    assert_eq!(parse_integer("-12"), Some(-12));
    assert_eq!(parse_integer("12"), Some(12));
    assert_eq!(parse_integer("-"), None);
    assert_eq!(parse_integer("1.5"), None);
    assert_eq!(parse_integer("-18446744073709551615"), Some(-(u64::MAX as i128)));
    for n in [0u64, 1, 9, 10, 99, 100, 12345, u64::MAX] {
        assert_eq!(parse_u64(&u64_to_string(n)), Some(n));
    }
}

#[test]
fn words_are_split_at_white_space() {
    assert_eq!(split_whitespace("a b"), vec!["a", "b"]);
    assert_eq!(split_whitespace("  user-read-email \t user-read-private\n"), vec![
        "user-read-email",
        "user-read-private"
    ]);
    assert_eq!(split_whitespace(""), Vec::<String>::new());
    assert_eq!(split_whitespace(" \u{3000} "), Vec::<String>::new());
    assert_eq!(split_whitespace("one"), vec!["one"]);
    let mixed = "a\u{a0}b\u{2003}c d\u{85}e";
    let expected: Vec<String> = mixed.split_whitespace().map(str::to_owned).collect();
    assert_eq!(split_whitespace(mixed), expected);
}

#[test]
fn strings_are_joined_and_stripped() {
    assert_eq!(text::concat("a", "b"), "ab");
    assert_eq!(text::concat3("a", "", "c"), "ac");
    assert_eq!(join_comma(&vec![]), "");
    assert_eq!(join_comma(&vec!["a".to_string()]), "a");
    assert_eq!(join_comma(&vec!["a".to_string(), "".to_string(), "c".to_string()]), "a,,c");
    assert_eq!(strip_prefix("spotify:track:x", "spotify:track:"), Some("x"));
    assert_eq!(strip_prefix("spotify:track:", "spotify:track:"), Some(""));
    assert_eq!(strip_prefix("spotify:album:x", "spotify:track:"), None);
    assert_eq!(strip_prefix("sp", "spotify:"), None);
    assert_eq!(strip_prefix("\u{e9}t\u{e9}", "\u{e9}"), Some("t\u{e9}"));
    assert!(str_eq("abc", "abc"));
    assert!(!str_eq("abc", "abd"));
}

#[test]
fn bytes_become_a_string_where_they_are_utf8() {
    assert_eq!(string_of_bytes(b"caf\xc3\xa9".to_vec()), Some("caf\u{e9}".to_string()));
    assert_eq!(string_of_bytes(vec![0xff, 0xfe]), None);
    assert_eq!(string_of_bytes(vec![]), Some(String::new()));
}
