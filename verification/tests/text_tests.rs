use firre::text::{
    find_str, i64_text, join_texts, last_segment_of, parse_i64, rfind_char, same_text, trim_end_char,
    trim_start_char, u64_text,
};

#[test]
fn trims_leading_and_trailing_characters() {
    assert_eq!(trim_start_char("//users/abc", '/'), "users/abc");
    assert_eq!(trim_start_char("users", '/'), "users");
    assert_eq!(trim_start_char("///", '/'), "");
    assert_eq!(trim_end_char("users//", '/'), "users");
    assert_eq!(trim_end_char("/", '/'), "");
    assert_eq!(trim_end_char("", '/'), "");
}

#[test]
fn last_segment_is_text_after_last_separator() {
    assert_eq!(last_segment_of("projects/p/databases/(default)/documents/users/abc", '/'), "abc");
    assert_eq!(last_segment_of("abc", '/'), "abc");
    assert_eq!(last_segment_of("abc/", '/'), "");
    assert_eq!(rfind_char("users/abc/orders", '/'), Some(9));
    assert_eq!(rfind_char("users", '/'), None);
}

#[test]
fn finds_first_occurrence_in_characters() {
    assert_eq!(find_str("a/documents/b/documents/c", "/documents/"), Some(1));
    assert_eq!(find_str("abc", "x"), None);
    assert_eq!(find_str("abc", ""), Some(0));
    assert_eq!(find_str("é.b", "."), Some(1));
}

#[test]
fn writes_decimal_integers() {
    assert_eq!(u64_text(0), "0");
    assert_eq!(u64_text(1234567890), "1234567890");
    assert_eq!(u64_text(u64::MAX), u64::MAX.to_string());
    assert_eq!(i64_text(-42), "-42");
    assert_eq!(i64_text(i64::MIN), i64::MIN.to_string());
    assert_eq!(i64_text(i64::MAX), i64::MAX.to_string());
}

#[test]
fn parses_integers_as_std_does() {
    let cases = [
        "0", "42", "+7", "-13", "", "+", "-", "12a", "a12", "9223372036854775807", "9223372036854775808",
        "-9223372036854775808", "-9223372036854775809", "99999999999999999999x", "٣", "007", " 1",
    ];
    for c in cases {
        let expected = c.parse::<i64>().map_err(|e| e.to_string());
        assert_eq!(parse_i64(c), expected, "input {c:?}");
    }
}

#[test]
fn compares_and_joins_texts() {
    assert!(same_text("abc", "abc"));
    assert!(!same_text("abc", "abd"));
    let items = vec!["a".to_string(), "b".to_string(), "c".to_string()];
    assert_eq!(join_texts(&items, ","), "a,b,c");
    assert_eq!(join_texts(&Vec::new(), ","), "");
}
