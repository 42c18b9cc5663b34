use acoustic::commands::play::{
    create, first_playlist_track, is_playlist_url, next_background_track, playlist_step,
    playlist_track, query_text, reply_embed, single_track, source_request, start_single,
    watch_url, PlaylistAction, PlaylistEvent, PlaylistStage, QueryOption, SourceMetadata,
    SourceRequest,
};
use acoustic::commands::playlist::PlaylistItem;
use acoustic::embeds::Rgb;
use acoustic::errors::BotError;
use acoustic::queue_store::Submitter;

fn user() -> Submitter {
    Submitter { name: "ann".to_string(), global_name: None, avatar_url: "face".to_string() }
}

fn meta(title: Option<&str>, artist: Option<&str>, url: Option<&str>, thumb: Option<&str>, secs: Option<u64>) -> SourceMetadata {
    SourceMetadata {
        title: title.map(String::from),
        artist: artist.map(String::from),
        source_url: url.map(String::from),
        thumbnail: thumb.map(String::from),
        duration_secs: secs,
    }
}

fn item(id: &str, title: &str, thumb: Option<&str>) -> PlaylistItem {
    PlaylistItem { id: id.to_string(), title: title.to_string(), duration: None, thumbnail: thumb.map(String::from) }
}

#[test]
fn playlist_urls() {
    assert!(is_playlist_url("https://www.youtube.com/watch?v=abc&list=PL123"));
    assert!(is_playlist_url("https://www.youtube.com/playlist?list=PL123"));
    assert!(is_playlist_url("https://music.example/playlist"));
    assert!(is_playlist_url("list="));
    assert!(!is_playlist_url("https://www.youtube.com/watch?v=abc"));
    assert!(!is_playlist_url("lofi hip hop"));
    assert!(!is_playlist_url("list"));
    assert!(!is_playlist_url(""));
    assert!(!is_playlist_url("/Playlist"));
}

#[test]
fn single_queries() {
    assert_eq!(
        source_request("https://youtu.be/abc"),
        SourceRequest::Url("https://youtu.be/abc".to_string())
    );
    assert_eq!(source_request("http://x"), SourceRequest::Url("http://x".to_string()));
    assert_eq!(source_request("never gonna"), SourceRequest::Search("never gonna".to_string()));
    assert_eq!(source_request("HTTPS://x"), SourceRequest::Search("HTTPS://x".to_string()));
    assert_eq!(source_request(" https://x"), SourceRequest::Search(" https://x".to_string()));
    assert_eq!(source_request("https:/"), SourceRequest::Search("https:/".to_string()));
}

#[test]
fn query_option_checks() {
    assert_eq!(query_text(None), Err(BotError::MissingQuery));
    assert_eq!(query_text(Some(QueryOption::Other)), Err(BotError::InvalidQueryType));
    assert_eq!(query_text(Some(QueryOption::Text("abc".to_string()))), Ok("abc".to_string()));
}

#[test]
fn watch_urls() {
    assert_eq!(watch_url("dQw4w9WgXcQ"), "https://www.youtube.com/watch?v=dQw4w9WgXcQ");
}

#[test]
fn single_track_entry() {
    let t = single_track(&meta(None, None, None, Some("th"), Some(200)), user());
    assert_eq!(t.title, "<unknown title>");
    assert_eq!(t.duration_secs, Some(200));
    assert_eq!(t.thumbnail.as_deref(), Some("th"));
    assert_eq!(t.user, user());
    let t = single_track(&meta(Some("Song"), None, None, None, None), user());
    assert_eq!(t.title, "Song");
}

#[test]
fn start_single_outcomes() {
    let m = meta(Some("Song"), Some("Band"), None, None, Some(10));
    assert_eq!(start_single(false, true, Some(m.clone()), user()), Err(BotError::ChannelUnavailable));
    assert_eq!(start_single(false, true, None, user()), Err(BotError::ChannelUnavailable));
    assert_eq!(start_single(true, true, None, user()), Err(BotError::SongNotFound));
    let (t, back, now) = start_single(true, false, Some(m.clone()), user()).unwrap();
    assert_eq!(t.title, "Song");
    assert_eq!(back, m);
    assert!(!now);
    let (_, _, now) = start_single(true, true, Some(m), user()).unwrap();
    assert!(now);
}

#[test]
fn first_playlist_track_falls_back_to_listing() {
    let it = item("id1", "Listed", Some("listed-thumb"));
    let t = first_playlist_track(&it, Some(99), &meta(None, None, None, None, None), user());
    assert_eq!(t.title, "Listed");
    assert_eq!(t.duration_secs, Some(99));
    assert_eq!(t.thumbnail.as_deref(), Some("listed-thumb"));
    let t = first_playlist_track(&it, Some(99), &meta(Some("Real"), None, None, Some("real-thumb"), Some(5)), user());
    assert_eq!(t.title, "Real");
    assert_eq!(t.duration_secs, Some(5));
    assert_eq!(t.thumbnail.as_deref(), Some("real-thumb"));
}

#[test]
fn later_playlist_track_uses_listing() {
    let t = playlist_track(&item("id2", "Second", None), None, user());
    assert_eq!(t.title, "Second");
    assert_eq!(t.duration_secs, None);
    assert!(t.thumbnail.is_none());
}

#[test]
fn reply_card_now_playing_with_link() {
    let e = reply_embed(&meta(Some("Song"), Some("Band"), Some("https://y/1"), Some("th"), None), true);
    assert_eq!(e.title.as_deref(), Some("🎶  Now Playing  🎶"));
    assert_eq!(e.description, "[**Song**](https://y/1) by **Band**");
    assert_eq!(e.thumbnail.as_deref(), Some("th"));
    assert_eq!(e.color, Rgb { red: 34, green: 255, blue: 253 });
}

#[test]
fn reply_card_queued_without_link() {
    let e = reply_embed(&meta(None, None, None, None, None), false);
    assert_eq!(e.title.as_deref(), Some("🎶  Queued  🎶"));
    assert_eq!(e.description, "**<unknown title>** by **<unknown artist>**");
    assert_eq!(e.thumbnail.as_deref(), Some(""));
    assert!(e.author.is_none());
}

#[test]
fn play_definition() {
    let c = create();
    assert_eq!(c.name, "play");
    assert_eq!(c.description, "play some music! supports youtube urls, search, and playlists");
    assert_eq!(c.options.len(), 1);
    assert_eq!(c.options[0].name, "query");
    assert_eq!(c.options[0].description, "youtube url, search query, or playlist url");
    assert!(c.options[0].required);
}

#[test]
fn background_enqueue_stops_without_call() {
    let it = item("id3", "Third", Some("t3"));
    assert_eq!(next_background_track(false, &it, Some(4), user()), None);
    let t = next_background_track(true, &it, Some(4), user()).unwrap();
    assert_eq!(t.title, "Third");
    assert_eq!(t.duration_secs, Some(4));
    assert_eq!(t.thumbnail.as_deref(), Some("t3"));
}

#[test]
fn playlist_steps_in_order() {
    let u = user();
    let (next, action) = playlist_step(PlaylistStage::Joining, PlaylistEvent::Joined(None), &u);
    assert_eq!((next, action), (None, PlaylistAction::Fail(BotError::ChannelUnavailable)));

    let (next, action) = playlist_step(PlaylistStage::Joining, PlaylistEvent::Joined(Some(true)), &u);
    assert_eq!(next, Some(PlaylistStage::Listing { idle: true }));
    assert_eq!(action, PlaylistAction::FetchListing);

    let (next, action) = playlist_step(
        PlaylistStage::Listing { idle: true },
        PlaylistEvent::Listed(Err(BotError::EmptyPlaylist)),
        &u,
    );
    assert_eq!((next, action), (None, PlaylistAction::Fail(BotError::EmptyPlaylist)));

    let items = vec![item("a1", "First", None), item("b2", "Second", None)];
    let (next, action) = playlist_step(PlaylistStage::Listing { idle: false }, PlaylistEvent::Listed(Ok(items)), &u);
    assert_eq!(action, PlaylistAction::LoadFirst("https://www.youtube.com/watch?v=a1".to_string()));
    let stage = next.unwrap();
    assert_eq!(
        stage,
        PlaylistStage::LoadingFirst { idle: false, first: item("a1", "First", None), rest: vec![item("b2", "Second", None)] }
    );

    let (next, action) = playlist_step(
        stage.clone(),
        PlaylistEvent::FirstMetadata { metadata: Err("stream failed".to_string()), listed_secs: None },
        &u,
    );
    assert_eq!((next, action), (None, PlaylistAction::Fail(BotError::Source("stream failed".to_string()))));

    let m = meta(None, Some("Band"), None, None, None);
    let (next, action) = playlist_step(
        stage,
        PlaylistEvent::FirstMetadata { metadata: Ok(m.clone()), listed_secs: Some(30) },
        &u,
    );
    assert_eq!(next, None);
    match action {
        PlaylistAction::Start { first, rest, reply, started_now } => {
            assert_eq!(first.title, "First");
            assert_eq!(first.duration_secs, Some(30));
            assert_eq!(rest, vec![item("b2", "Second", None)]);
            assert_eq!(reply, m);
            assert!(!started_now);
        },
        other => panic!("unexpected {other:?}"),
    }
}
