use acoustic::commands::playlist::{item_from_fields, parse_playlist, playlist_from_output, EntryFields};
use acoustic::errors::BotError;

fn ids(items: &[acoustic::commands::playlist::PlaylistItem]) -> Vec<String> {
    items.iter().map(|i| i.id.clone()).collect()
}

#[test]
fn entries_in_output_order() {
    let text = "{\"id\":\"a1\",\"title\":\"First\",\"duration\":212.0,\"thumbnail\":\"https://i/a1.jpg\"}\n\
                {\"id\":\"b2\",\"title\":\"Second\",\"duration\":95}\n";
    let items = parse_playlist(text).unwrap();
    assert_eq!(ids(&items), vec!["a1", "b2"]);
    assert_eq!(items[0].title, "First");
    assert_eq!(items[0].thumbnail.as_deref(), Some("https://i/a1.jpg"));
    assert_eq!(items[0].duration.as_deref(), Some("212.0"));
    assert_eq!(items[1].duration.as_deref(), Some("95"));
    assert!(items[1].thumbnail.is_none());
}

#[test]
fn empty_lines_and_crlf_are_skipped() {
    let text = "\n{\"id\":\"a\"}\r\n\r\n\n{\"id\":\"b\",\"title\":null}";
    let items = parse_playlist(text).unwrap();
    assert_eq!(ids(&items), vec!["a", "b"]);
    assert_eq!(items[0].title, "<unknown>");
    assert_eq!(items[1].title, "<unknown>");
}

#[test]
fn non_string_fields_are_absent() {
    let items = parse_playlist("{\"id\":\"a\",\"title\":5,\"thumbnail\":[],\"duration\":\"long\"}").unwrap();
    let fractional = parse_playlist("{\"id\":\"b\",\"duration\":212.5}").unwrap();
    assert_eq!(fractional[0].duration.as_deref(), Some("212.5"));
    let large = parse_playlist("{\"id\":\"c\",\"duration\":1e3}").unwrap();
    assert_eq!(large[0].duration.as_deref().map(|t| t.parse::<f64>().unwrap()), Some(1000.0));
    assert_eq!(items[0].title, "<unknown>");
    assert!(items[0].thumbnail.is_none());
    assert!(items[0].duration.is_none());
}

#[test]
fn empty_output_is_an_error() {
    assert_eq!(parse_playlist("").unwrap_err(), BotError::EmptyPlaylist);
    assert_eq!(parse_playlist("\n\n\r\n").unwrap_err(), BotError::EmptyPlaylist);
}

#[test]
fn malformed_line_is_an_error() {
    let text = "{\"id\":\"a\"}\nnot json\n{\"title\":\"no id\"}\n";
    assert_eq!(parse_playlist(text).unwrap_err(), BotError::MalformedPlaylistLine);
}

#[test]
fn whitespace_only_line_is_malformed() {
    assert_eq!(parse_playlist("{\"id\":\"a\"}\n  \n").unwrap_err(), BotError::MalformedPlaylistLine);
}

#[test]
fn missing_id_is_an_error() {
    let text = "{\"id\":\"a\"}\n{\"title\":\"no id\"}\nnot json\n";
    assert_eq!(parse_playlist(text).unwrap_err(), BotError::MissingVideoId);
    assert_eq!(parse_playlist("{\"id\":7}").unwrap_err(), BotError::MissingVideoId);
    assert_eq!(parse_playlist("[1,2]").unwrap_err(), BotError::MissingVideoId);
}

#[test]
fn item_from_fields_requires_id() {
    let f = EntryFields { id: None, title: Some("t".to_string()), duration: None, thumbnail: None };
    assert_eq!(item_from_fields(f), Err(BotError::MissingVideoId));
    let f = EntryFields { id: Some("x".to_string()), title: None, duration: Some("7".to_string()), thumbnail: Some("th".to_string()) };
    let item = item_from_fields(f).unwrap();
    assert_eq!(item.duration.as_deref(), Some("7"));
    assert_eq!(item.id, "x");
    assert_eq!(item.title, "<unknown>");
    assert_eq!(item.thumbnail.as_deref(), Some("th"));
}

#[test]
fn failed_run_reports_stderr() {
    let r = playlist_from_output(false, b"{\"id\":\"a\"}".to_vec(), &b"ERROR: no such playlist".to_vec());
    assert_eq!(r.unwrap_err(), BotError::PlaylistFetchFailed("ERROR: no such playlist".to_string()));
    let r = playlist_from_output(false, Vec::new(), &vec![b'e', 0xff, b'!']);
    let err = r.unwrap_err();
    assert_eq!(err, BotError::PlaylistFetchFailed("e\u{FFFD}!".to_string()));
    assert_eq!(err.message(), "yt-dlp failed to fetch playlist: e\u{FFFD}!");
}

#[test]
fn invalid_utf8_output_is_an_error() {
    let r = playlist_from_output(true, vec![b'{', 0xff], &Vec::new());
    assert_eq!(
        r.unwrap_err(),
        BotError::InvalidUtf8("invalid utf-8 sequence of 1 bytes from index 1".to_string())
    );
}

#[test]
fn successful_run_is_parsed() {
    let r = playlist_from_output(true, "{\"id\":\"é\",\"title\":\"Café\"}\n".as_bytes().to_vec(), &Vec::new());
    let items = r.unwrap();
    assert_eq!(ids(&items), vec!["é"]);
    assert_eq!(items[0].title, "Café");
}

#[test]
fn final_line_ending_does_not_matter() {
    let base = "{\"id\":\"a\"}\n{\"id\":\"b\"}";
    let with_lf = format!("{base}\n");
    let with_crlf = format!("{base}\r\n");
    let ids_of = |t: &str| ids(&parse_playlist(t).unwrap());
    assert_eq!(ids_of(base), ids_of(&with_lf));
    assert_eq!(ids_of(base), ids_of(&with_crlf));
}
