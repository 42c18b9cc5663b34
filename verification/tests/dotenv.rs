use acoustic::dotenv::{char_is_whitespace, parse_dotenv};

fn pairs(text: &str) -> Vec<(String, String)> {
    parse_dotenv(text)
}

#[test]
fn settings_in_file_order() {
    let text = "BOT_TOKEN=abc\n# comment=ignored\n\n   \nRUST_LOG=info\nNOEQUALS\nURL=http://x?a=b\n";
    assert_eq!(
        pairs(text),
        vec![
            ("BOT_TOKEN".to_string(), "abc".to_string()),
            ("RUST_LOG".to_string(), "info".to_string()),
            ("URL".to_string(), "http://x?a=b".to_string()),
        ]
    );
}

#[test]
fn keys_and_values_are_not_trimmed() {
    assert_eq!(pairs(" KEY = value \r\n"), vec![(" KEY ".to_string(), " value ".to_string())]);
    assert_eq!(pairs("=x"), vec![(String::new(), "x".to_string())]);
    assert_eq!(pairs("K="), vec![("K".to_string(), String::new())]);
}

#[test]
fn comment_only_when_hash_is_first() {
    assert_eq!(pairs("  #A=1"), vec![("  #A".to_string(), "1".to_string())]);
    assert!(pairs("#A=1").is_empty());
}

#[test]
fn unicode_blank_lines_are_skipped() {
    assert!(pairs("\u{00A0}\u{2003}\t\n").is_empty());
}

#[test]
fn whitespace_matches_std() {
    for u in 0u32..=0x10FFFF {
        if let Some(c) = char::from_u32(u) {
            assert_eq!(char_is_whitespace(c), c.is_whitespace(), "U+{u:04X}");
        }
    }
}
