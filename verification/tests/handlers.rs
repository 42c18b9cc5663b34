use acoustic::commands::clear_queue::{clear_step, cleared_embed, finish_clear, next_to_clear, ClearAction, ClearEvent};
use acoustic::commands::skip::{skip_step, skipped_embed, SkipAction, SkipEvent};
use acoustic::commands::{check_user_channel, clear_queue, queue_is_idle, skip};
use acoustic::embeds::Rgb;
use acoustic::errors::BotError;
use acoustic::handlers::command_handler::{CommandHandler, CommandKind};
use acoustic::handlers::track_end_handler::{on_track_end, PlayState};
use acoustic::handlers::voice_handler::VoiceHandler;
use acoustic::queue_store::{self, QueueStore, Submitter, TrackMetadata};

fn track(title: &str) -> TrackMetadata {
    TrackMetadata {
        title: title.to_string(),
        duration_secs: None,
        thumbnail: None,
        user: Submitter { name: "u".to_string(), global_name: None, avatar_url: String::new() },
    }
}

#[test]
fn command_names() {
    let h = CommandHandler;
    assert_eq!(h.command_kind("play"), Some(CommandKind::Play));
    assert_eq!(h.command_kind("queue"), Some(CommandKind::Queue));
    assert_eq!(h.command_kind("skip"), Some(CommandKind::Skip));
    assert_eq!(h.command_kind("clearqueue"), Some(CommandKind::ClearQueue));
    assert_eq!(h.command_kind("Play"), None);
    assert_eq!(h.command_kind("clear_queue"), None);
    assert_eq!(h.command_kind(""), None);
    assert_eq!(h.handle_command("skip"), CommandKind::Skip);
}

#[test]
fn registered_commands() {
    let defs = CommandHandler.command_definitions();
    let names: Vec<&str> = defs.iter().map(|d| d.name.as_str()).collect();
    assert_eq!(names, vec!["play", "queue", "skip", "clearqueue"]);
    assert_eq!(skip::create().description, "skip to the next song in the queue");
    assert_eq!(clear_queue::create().description, "skip to the next song in the queue");
}

#[test]
fn error_cards() {
    let e = CommandHandler.error_embed(&BotError::NoTrackPlaying);
    assert_eq!(e.title.as_deref(), Some("ERROR"));
    assert_eq!(e.description, "No track playing!");
    assert_eq!(e.color, Rgb { red: 231, green: 76, blue: 60 });
    assert!(e.author.is_none() && e.thumbnail.is_none());
}

#[test]
fn error_messages() {
    let cases = [
        (BotError::NotInGuild, "You need to be on a server to use this command!"),
        (BotError::NotInVoiceChannel, "You need to be connected to a voice channel to use this command!"),
        (BotError::MissingQuery, "You need to provide a query!"),
        (BotError::InvalidQueryType, "Invalid query type!"),
        (BotError::ChannelUnavailable, "Could not get channel info!"),
        (BotError::SongNotFound, "Song not found!"),
        (BotError::NotPlaying, "I'm currently not playing in any voice channel!"),
        (BotError::NoTrackPlaying, "No track playing!"),
        (BotError::SkipFailed, "Failed to skip song!"),
        (BotError::YtDlpUnavailable, "Failed to run yt-dlp — is it installed?"),
        (BotError::PlaylistFetchFailed("boom".to_string()), "yt-dlp failed to fetch playlist: boom"),
        (BotError::InvalidUtf8("bad bytes".to_string()), "bad bytes"),
        (BotError::MalformedPlaylistLine, "Failed to parse yt-dlp output"),
        (BotError::MissingVideoId, "Video missing id in yt-dlp output"),
        (BotError::EmptyPlaylist, "No videos found in playlist"),
        (BotError::Source("stream failed".to_string()), "stream failed"),
    ];
    for (err, text) in cases {
        assert_eq!(err.message(), text);
    }
}

#[test]
fn user_channel_checks() {
    assert_eq!(check_user_channel(None, None), Err(BotError::NotInGuild));
    assert_eq!(check_user_channel(None, Some(5)), Err(BotError::NotInGuild));
    assert_eq!(check_user_channel(Some(1), None), Err(BotError::NotInVoiceChannel));
    assert_eq!(check_user_channel(Some(1), Some(5)), Ok((1, 5)));
}

#[test]
fn idle_queue() {
    assert!(queue_is_idle(true, false));
    assert!(!queue_is_idle(true, true));
    assert!(!queue_is_idle(false, false));
}

#[test]
fn clearing_positions() {
    let mut len = 4usize;
    let mut taken = Vec::new();
    while let Some(i) = next_to_clear(len) {
        taken.push(i);
        len -= 1;
    }
    assert_eq!(taken, vec![3, 2, 1]);
    assert_eq!(next_to_clear(1), None);
    assert_eq!(next_to_clear(0), None);
    assert_eq!(cleared_embed().description, "Queue has been cleared");
    assert_eq!(skipped_embed().description, "Song has been skipped");
    assert_eq!(skipped_embed().color, Rgb { red: 34, green: 255, blue: 253 });
}

#[test]
fn track_end_pops_only_when_all_ended() {
    let mut store = QueueStore::new();
    queue_store::push(&mut store, 1, track("a"));
    queue_store::push(&mut store, 1, track("b"));
    assert!(!on_track_end(&mut store, 1, &vec![PlayState::End, PlayState::Play]));
    assert_eq!(queue_store::get(&store, 1).len(), 2);
    assert!(on_track_end(&mut store, 1, &vec![PlayState::End]));
    assert_eq!(queue_store::get(&store, 1)[0].title, "b");
    assert!(on_track_end(&mut store, 1, &Vec::new()));
    assert!(queue_store::get(&store, 1).is_empty());
    assert!(!on_track_end(&mut store, 1, &vec![PlayState::Errored]));
}

#[test]
fn voice_updates() {
    let v = VoiceHandler;
    assert_eq!(v.own_update_guild(10, 11, Some(3)), None);
    assert_eq!(v.own_update_guild(10, 10, None), None);
    assert_eq!(v.own_update_guild(10, 10, Some(3)), Some(3));
    assert!(v.must_release(None, true));
    assert!(!v.must_release(None, false));
    assert!(!v.must_release(Some(4), true));
    let mut store = QueueStore::new();
    queue_store::push(&mut store, 3, track("a"));
    queue_store::push(&mut store, 4, track("b"));
    v.release(&mut store, 3);
    assert!(queue_store::get(&store, 3).is_empty());
    assert_eq!(queue_store::get(&store, 4).len(), 1);
}

#[test]
fn skip_steps() {
    assert_eq!(skip_step(SkipEvent::CallLookedUp(false)), SkipAction::Fail(BotError::NotPlaying));
    assert_eq!(skip_step(SkipEvent::CallLookedUp(true)), SkipAction::CheckCurrent);
    assert_eq!(skip_step(SkipEvent::CurrentChecked(false)), SkipAction::Fail(BotError::NoTrackPlaying));
    assert_eq!(skip_step(SkipEvent::CurrentChecked(true)), SkipAction::RequestSkip);
    assert_eq!(skip_step(SkipEvent::SkipRequested(false)), SkipAction::Fail(BotError::SkipFailed));
    assert_eq!(skip_step(SkipEvent::SkipRequested(true)), SkipAction::Reply(skipped_embed()));
}

#[test]
fn clear_steps() {
    assert_eq!(clear_step(ClearEvent::CallLookedUp(false)), ClearAction::Fail(BotError::NotPlaying));
    assert_eq!(clear_step(ClearEvent::CallLookedUp(true)), ClearAction::ReadLength);
    assert_eq!(clear_step(ClearEvent::QueueLength(3)), ClearAction::Dequeue(2));
    assert_eq!(clear_step(ClearEvent::QueueLength(1)), ClearAction::Finish);
    assert_eq!(clear_step(ClearEvent::QueueLength(0)), ClearAction::Finish);
    let mut store = QueueStore::new();
    for t in ["a", "b", "c"] {
        queue_store::push(&mut store, 6, track(t));
    }
    let e = finish_clear(&mut store, 6);
    assert_eq!(e, cleared_embed());
    assert_eq!(queue_store::get(&store, 6).len(), 1);
    assert_eq!(queue_store::get(&store, 6)[0].title, "a");
}
