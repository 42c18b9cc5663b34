use acoustic::text::{chars_of, contains_chars, lines, push_decimal, push_two_digits, starts_with_chars, string_from_range};

#[test]
fn lines_like_str_lines() {
    for text in ["", "a", "a\n", "a\nb", "a\r\nb\r\n", "\n\n", "x\r", "a\n\r\nb\r", "é\nü"] {
        let expected: Vec<String> = text.lines().map(String::from).collect();
        assert_eq!(lines(text), expected, "text {text:?}");
    }
    assert_eq!(lines("foo\r\nbar\n\nbaz\r"), vec!["foo", "bar", "", "baz\r"]);
}

#[test]
fn decimals() {
    let mut s = String::new();
    push_decimal(&mut s, 0);
    s.push(' ');
    push_decimal(&mut s, 1234567890);
    s.push(' ');
    push_two_digits(&mut s, 7);
    s.push(' ');
    push_two_digits(&mut s, 42);
    s.push(' ');
    push_two_digits(&mut s, 123);
    assert_eq!(s, "0 1234567890 07 42 123");
}

#[test]
fn substring_and_prefix() {
    let hay = chars_of("abcabd");
    assert!(contains_chars(&hay, &chars_of("abd")));
    assert!(contains_chars(&hay, &chars_of("")));
    assert!(!contains_chars(&hay, &chars_of("abe")));
    assert!(!contains_chars(&chars_of("ab"), &chars_of("abc")));
    assert!(starts_with_chars(&hay, &chars_of("abc")));
    assert!(!starts_with_chars(&hay, &chars_of("bc")));
    assert_eq!(string_from_range(&hay, 1, 4), "bca");
}
