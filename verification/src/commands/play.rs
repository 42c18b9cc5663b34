//! `/play`: plays a YouTube video, a search result or a whole playlist.

use vstd::prelude::*;

use crate::commands::playlist::PlaylistItem;
use crate::commands::{CommandDef, StringOptionDef};
use crate::embeds::{brand_color, spec_brand_color, Embed};
use crate::errors::BotError;
use crate::queue_store::{Submitter, TrackMetadata};
use crate::text::{
    chars_of, contains_chars, has_prefix, has_substring, occurs_at, starts_with_chars,
};

verus! {

/// The definition of `/play`: one required string argument, `query`.
pub fn create() -> (c: CommandDef)
    ensures
        c.name@ == "play"@,
        c.description@ == "play some music! supports youtube urls, search, and playlists"@,
        c.options@.len() == 1,
        c.options@[0].name@ == "query"@,
        c.options@[0].description@ == "youtube url, search query, or playlist url"@,
        c.options@[0].required,
{
    let mut options: Vec<StringOptionDef> = Vec::new();
    options.push(
        StringOptionDef {
            name: String::from_str("query"),
            description: String::from_str("youtube url, search query, or playlist url"),
            required: true,
        },
    );
    CommandDef {
        name: String::from_str("play"),
        description: String::from_str("play some music! supports youtube urls, search, and playlists"),
        options,
    }
}

/// The first argument `/play` received, as far as the bot tells them apart.
#[derive(Debug, Clone, PartialEq, Eq)]
pub enum QueryOption {
    /// A string argument.
    Text(String),
    /// An argument of another type.
    Other,
}

/// The query of a `/play` call: its first argument, which must be a string.
pub fn query_text(first: Option<QueryOption>) -> (r: Result<String, BotError>)
    ensures
        match first {
            None => r == Err::<String, BotError>(BotError::MissingQuery),
            Some(QueryOption::Other) => r == Err::<String, BotError>(BotError::InvalidQueryType),
            Some(QueryOption::Text(q)) => r == Ok::<String, BotError>(q),
        },
{
    match first {
        None => Err(BotError::MissingQuery),
        Some(QueryOption::Other) => Err(BotError::InvalidQueryType),
        Some(QueryOption::Text(q)) => Ok(q),
    }
}

/// A query names a playlist when it holds `list=` or `/playlist`.
pub open spec fn spec_is_playlist_url(query: Seq<char>) -> bool {
    has_substring(query, "list="@) || has_substring(query, "/playlist"@)
}

/// Whether a query names a playlist.
pub fn is_playlist_url(query: &str) -> (b: bool)
    ensures
        b == spec_is_playlist_url(query@),
{
    let q = chars_of(query);
    let list = chars_of("list=");
    if contains_chars(&q, &list) {
        return true;
    }
    let playlist = chars_of("/playlist");
    contains_chars(&q, &playlist)
}

/// How a single (non-playlist) query is looked up.
#[derive(Debug, Clone, PartialEq, Eq)]
pub enum SourceRequest {
    /// The query is a URL to play directly.
    Url(String),
    /// The query is text to search YouTube for.
    Search(String),
}

/// A query is used as a URL when it starts with `https://` or `http://`.
pub open spec fn spec_is_url(query: Seq<char>) -> bool {
    has_prefix(query, "https://"@) || has_prefix(query, "http://"@)
}

/// `list=` is written in `q` from position `i` on.
pub open spec fn list_eq_at(q: Seq<char>, i: int) -> bool {
    0 <= i && i + 5 <= q.len() && q[i] == 'l' && q[i + 1] == 'i' && q[i + 2] == 's' && q[i + 3]
        == 't' && q[i + 4] == '='
}

/// `/playlist` is written in `q` from position `i` on.
pub open spec fn slash_playlist_at(q: Seq<char>, i: int) -> bool {
    0 <= i && i + 9 <= q.len() && q[i] == '/' && q[i + 1] == 'p' && q[i + 2] == 'l' && q[i + 3]
        == 'a' && q[i + 4] == 'y' && q[i + 5] == 'l' && q[i + 6] == 'i' && q[i + 7] == 's' && q[i
        + 8] == 't'
}

/// A query is a playlist exactly when the characters `list=` or the
/// characters `/playlist` appear in it one after the other.
pub proof fn lemma_playlist_query_iff(q: Seq<char>)
    ensures
        spec_is_playlist_url(q) <==> (exists|i: int| #[trigger] list_eq_at(q, i)) || (exists|i: int|
            #[trigger] slash_playlist_at(q, i)),
{
    reveal_strlit("list=");
    reveal_strlit("/playlist");
    let a = "list="@;
    let b = "/playlist"@;
    assert forall|i: int| occurs_at(q, a, i) <==> #[trigger] list_eq_at(q, i) by {
        if occurs_at(q, a, i) {
            let sub = q.subrange(i, i + 5);
            assert(sub[0] == q[i] && sub[1] == q[i + 1] && sub[2] == q[i + 2] && sub[3] == q[i + 3]
                && sub[4] == q[i + 4]);
        }
        if list_eq_at(q, i) {
            assert(q.subrange(i, i + 5) =~= a);
        }
    }
    assert forall|i: int| occurs_at(q, b, i) <==> #[trigger] slash_playlist_at(q, i) by {
        if occurs_at(q, b, i) {
            let sub = q.subrange(i, i + 9);
            assert(sub[0] == q[i] && sub[1] == q[i + 1] && sub[2] == q[i + 2] && sub[3] == q[i + 3]
                && sub[4] == q[i + 4] && sub[5] == q[i + 5] && sub[6] == q[i + 6] && sub[7] == q[i
                + 7] && sub[8] == q[i + 8]);
        }
        if slash_playlist_at(q, i) {
            assert(q.subrange(i, i + 9) =~= b);
        }
    }
    if spec_is_playlist_url(q) {
        if has_substring(q, a) {
            let i = choose|i: int| occurs_at(q, a, i);
            assert(list_eq_at(q, i));
        } else {
            let i = choose|i: int| occurs_at(q, b, i);
            assert(slash_playlist_at(q, i));
        }
    }
    if exists|i: int| #[trigger] list_eq_at(q, i) {
        let i = choose|i: int| list_eq_at(q, i);
        assert(occurs_at(q, a, i));
    }
    if exists|i: int| #[trigger] slash_playlist_at(q, i) {
        let i = choose|i: int| slash_playlist_at(q, i);
        assert(occurs_at(q, b, i));
    }
}

/// A query without any `=` and without any `/` (plain search text such as
/// `lofi playlist`) is never taken for a playlist.
pub proof fn lemma_plain_text_is_no_playlist(q: Seq<char>)
    requires
        forall|i: int| 0 <= i < q.len() ==> q[i] != '=' && q[i] != '/',
    ensures
        !spec_is_playlist_url(q),
{
    lemma_playlist_query_iff(q);
    assert forall|i: int| !list_eq_at(q, i) by {
        if list_eq_at(q, i) {
            assert(q[i + 4] == '=');
        }
    }
    assert forall|i: int| !slash_playlist_at(q, i) by {
        if slash_playlist_at(q, i) {
            assert(q[i] == '/');
        }
    }
}

/// Adding text before or after a playlist query keeps it a playlist query.
pub proof fn lemma_playlist_query_survives_context(pre: Seq<char>, q: Seq<char>, post: Seq<char>)
    requires
        spec_is_playlist_url(q),
    ensures
        spec_is_playlist_url(pre + q + post),
{
    lemma_playlist_query_iff(q);
    lemma_playlist_query_iff(pre + q + post);
    let w = pre + q + post;
    if exists|i: int| #[trigger] list_eq_at(q, i) {
        let i = choose|i: int| list_eq_at(q, i);
        let j = i + pre.len();
        assert(w[j] == q[i] && w[j + 1] == q[i + 1] && w[j + 2] == q[i + 2] && w[j + 3] == q[i + 3]
            && w[j + 4] == q[i + 4]);
        assert(list_eq_at(w, j));
    } else {
        let i = choose|i: int| slash_playlist_at(q, i);
        let j = i + pre.len();
        assert(w[j] == q[i] && w[j + 1] == q[i + 1] && w[j + 2] == q[i + 2] && w[j + 3] == q[i + 3]
            && w[j + 4] == q[i + 4] && w[j + 5] == q[i + 5] && w[j + 6] == q[i + 6] && w[j + 7]
            == q[i + 7] && w[j + 8] == q[i + 8]);
        assert(slash_playlist_at(w, j));
    }
}

/// A query is used as a URL exactly when it begins with the characters
/// `http://` or `https://`.
pub proof fn lemma_url_query_iff(q: Seq<char>)
    ensures
        spec_is_url(q) <==> (q.len() >= 7 && q[0] == 'h' && q[1] == 't' && q[2] == 't' && q[3]
            == 'p' && ((q[4] == ':' && q[5] == '/' && q[6] == '/') || (q.len() >= 8 && q[4] == 's'
            && q[5] == ':' && q[6] == '/' && q[7] == '/'))),
{
    reveal_strlit("https://");
    reveal_strlit("http://");
    let a = "https://"@;
    let b = "http://"@;
    if q.len() >= 8 {
        let sub = q.subrange(0, 8);
        assert(sub[0] == q[0] && sub[1] == q[1] && sub[2] == q[2] && sub[3] == q[3] && sub[4]
            == q[4] && sub[5] == q[5] && sub[6] == q[6] && sub[7] == q[7]);
        if q[0] == 'h' && q[1] == 't' && q[2] == 't' && q[3] == 'p' && q[4] == 's' && q[5] == ':'
            && q[6] == '/' && q[7] == '/' {
            assert(sub =~= a);
        }
    }
    if q.len() >= 7 {
        let sub = q.subrange(0, 7);
        assert(sub[0] == q[0] && sub[1] == q[1] && sub[2] == q[2] && sub[3] == q[3] && sub[4]
            == q[4] && sub[5] == q[5] && sub[6] == q[6]);
        if q[0] == 'h' && q[1] == 't' && q[2] == 't' && q[3] == 'p' && q[4] == ':' && q[5] == '/'
            && q[6] == '/' {
            assert(sub =~= b);
        }
    }
}

/// How a single query is looked up: as a URL, or as a search.
pub fn source_request(query: &str) -> (r: SourceRequest)
    ensures
        spec_is_url(query@) ==> (r matches SourceRequest::Url(u) && u@ == query@),
        !spec_is_url(query@) ==> (r matches SourceRequest::Search(s) && s@ == query@),
{
    let q = chars_of(query);
    let https = chars_of("https://");
    let http = chars_of("http://");
    if starts_with_chars(&q, &https) || starts_with_chars(&q, &http) {
        SourceRequest::Url(String::from_str(query))
    } else {
        SourceRequest::Search(String::from_str(query))
    }
}

/// The page of a YouTube video: `https://www.youtube.com/watch?v={id}`.
pub fn watch_url(id: &str) -> (u: String)
    ensures
        u@ == "https://www.youtube.com/watch?v="@ + id@,
{
    let mut u = String::from_str("https://www.youtube.com/watch?v=");
    u.append(id);
    u
}

/// What the audio source reported about a track.
#[derive(Debug, Clone, PartialEq, Eq)]
pub struct SourceMetadata {
    pub title: Option<String>,
    pub artist: Option<String>,
    pub source_url: Option<String>,
    pub thumbnail: Option<String>,
    /// Length in whole seconds.
    pub duration_secs: Option<u64>,
}

fn clone_opt(o: &Option<String>) -> (r: Option<String>)
    ensures
        r == *o,
{
    match o {
        Some(s) => Some(s.clone()),
        None => None,
    }
}

fn text_or(o: &Option<String>, fallback: &str) -> (s: String)
    ensures
        s@ == match *o {
            Some(t) => t@,
            None => fallback@,
        },
{
    match o {
        Some(t) => t.clone(),
        None => String::from_str(fallback),
    }
}

/// The queue entry of a single track: the source's title (or
/// `<unknown title>`), length and thumbnail, and who asked for it.
pub fn single_track(metadata: &SourceMetadata, user: Submitter) -> (t: TrackMetadata)
    ensures
        t.title@ == match metadata.title {
            Some(s) => s@,
            None => "<unknown title>"@,
        },
        t.duration_secs == metadata.duration_secs,
        t.thumbnail == metadata.thumbnail,
        t.user == user,
{
    TrackMetadata {
        title: text_or(&metadata.title, "<unknown title>"),
        duration_secs: metadata.duration_secs,
        thumbnail: clone_opt(&metadata.thumbnail),
        user,
    }
}

/// The outcome of starting a single track, from what the outside steps gave:
/// whether the voice channel was joined, whether the call's queue was idle
/// then, and the source's metadata (`None` when it could not be found).
/// Joining is checked first. On success: the queue entry to record, the
/// metadata for the reply, and whether the track starts right away.
pub fn start_single(joined: bool, idle: bool, metadata: Option<SourceMetadata>, user: Submitter) -> (r:
    Result<(TrackMetadata, SourceMetadata, bool), BotError>)
    ensures
        !joined ==> r == Err::<(TrackMetadata, SourceMetadata, bool), BotError>(
            BotError::ChannelUnavailable,
        ),
        joined && metadata is None ==> r == Err::<(TrackMetadata, SourceMetadata, bool), BotError>(
            BotError::SongNotFound,
        ),
        joined && metadata is Some ==> (r matches Ok((t, m, now)) && m == metadata->0 && now == idle
            && t.title@ == match m.title {
            Some(s) => s@,
            None => "<unknown title>"@,
        } && t.duration_secs == m.duration_secs && t.thumbnail == m.thumbnail && t.user == user),
{
    if !joined {
        return Err(BotError::ChannelUnavailable);
    }
    match metadata {
        None => Err(BotError::SongNotFound),
        Some(m) => {
            let t = single_track(&m, user);
            Ok((t, m, idle))
        },
    }
}

/// `t` is the queue entry of a playlist's first track: the source's title,
/// length and thumbnail, each falling back to what the playlist listed.
pub open spec fn is_first_track(
    t: TrackMetadata,
    item: PlaylistItem,
    item_duration_secs: Option<u64>,
    metadata: SourceMetadata,
    user: Submitter,
) -> bool {
    &&& t.title@ == match metadata.title {
        Some(s) => s@,
        None => item.title@,
    }
    &&& t.duration_secs == match metadata.duration_secs {
        Some(d) => Some(d),
        None => item_duration_secs,
    }
    &&& t.thumbnail == match metadata.thumbnail {
        Some(s) => Some(s),
        None => item.thumbnail,
    }
    &&& t.user == user
}

/// The first video of a playlist takes its title, length and thumbnail from
/// the source whenever the source reports them, whatever the listing says;
/// only where the source is silent does the listing's value stand.
pub proof fn lemma_first_track_prefers_source(
    t: TrackMetadata,
    item: PlaylistItem,
    item_duration_secs: Option<u64>,
    metadata: SourceMetadata,
    user: Submitter,
)
    requires
        is_first_track(t, item, item_duration_secs, metadata, user),
    ensures
        metadata.title matches Some(s) ==> t.title@ == s@,
        metadata.title is None ==> t.title@ == item.title@,
        metadata.duration_secs is Some ==> t.duration_secs == metadata.duration_secs,
        metadata.duration_secs is None ==> t.duration_secs == item_duration_secs,
        metadata.thumbnail is Some ==> t.thumbnail == metadata.thumbnail,
        metadata.thumbnail is None ==> t.thumbnail == item.thumbnail,
        t.user == user,
{
}

/// The queue entry of the first track of a playlist: the source's title,
/// length and thumbnail, each falling back to what the playlist listed.
/// `item_duration_secs` is the listed length in whole seconds.
pub fn first_playlist_track(
    item: &PlaylistItem,
    item_duration_secs: Option<u64>,
    metadata: &SourceMetadata,
    user: Submitter,
) -> (t: TrackMetadata)
    ensures
        is_first_track(t, *item, item_duration_secs, *metadata, user),
{
    let title = match &metadata.title {
        Some(s) => s.clone(),
        None => item.title.clone(),
    };
    let duration_secs = match metadata.duration_secs {
        Some(d) => Some(d),
        None => item_duration_secs,
    };
    let thumbnail = match &metadata.thumbnail {
        Some(s) => Some(s.clone()),
        None => clone_opt(&item.thumbnail),
    };
    TrackMetadata { title, duration_secs, thumbnail, user }
}

/// The queue entry of a later playlist track, from the playlist listing
/// alone (`duration_secs` is the listed length in whole seconds).
pub fn playlist_track(item: &PlaylistItem, duration_secs: Option<u64>, user: Submitter) -> (t:
    TrackMetadata)
    ensures
        t.title == item.title,
        t.duration_secs == duration_secs,
        t.thumbnail == item.thumbnail,
        t.user == user,
{
    TrackMetadata {
        title: item.title.clone(),
        duration_secs,
        thumbnail: clone_opt(&item.thumbnail),
        user,
    }
}

/// The queue entry of a later playlist track, enqueued in the background:
/// `None` once the bot's call is gone, which ends the background enqueueing.
pub fn next_background_track(
    call_present: bool,
    item: &PlaylistItem,
    duration_secs: Option<u64>,
    user: Submitter,
) -> (t: Option<TrackMetadata>)
    ensures
        !call_present ==> t is None,
        call_present ==> (t matches Some(t) && t.title == item.title && t.duration_secs
            == duration_secs && t.thumbnail == item.thumbnail && t.user == user),
{
    if call_present {
        Some(playlist_track(item, duration_secs, user))
    } else {
        None
    }
}

/// Where starting a playlist stands.
#[derive(Debug, Clone, PartialEq, Eq)]
pub enum PlaylistStage {
    /// Waiting for the voice channel to be joined.
    Joining,
    /// Joined; waiting for `yt-dlp`'s listing. `idle` tells whether the
    /// call's queue was idle when it was joined.
    Listing { idle: bool },
    /// Waiting for the first video's metadata.
    LoadingFirst { idle: bool, first: PlaylistItem, rest: Vec<PlaylistItem> },
}

/// What the outside steps of starting a playlist report, in order.
#[derive(Debug, PartialEq, Eq)]
pub enum PlaylistEvent {
    /// Joining ended: `Some(idle)` when the channel was joined (with whether
    /// the call's queue was idle then), `None` when it failed.
    Joined(Option<bool>),
    /// The playlist `yt-dlp` listed, or why it could not.
    Listed(Result<Vec<PlaylistItem>, BotError>),
    /// The first video's metadata, or the message of the source's failure,
    /// with the first video's listed length in whole seconds.
    FirstMetadata { metadata: Result<SourceMetadata, String>, listed_secs: Option<u64> },
}

/// What starting a playlist does next.
#[derive(Debug, Clone, PartialEq, Eq)]
pub enum PlaylistAction {
    /// Run `yt-dlp` for the listing.
    FetchListing,
    /// Look up the metadata of the video at this URL (the first one).
    LoadFirst(String),
    /// Enqueue the first video with this queue entry, enqueue `rest` in the
    /// background, and reply with `reply`; `started_now` says whether it
    /// plays right away.
    Start { first: TrackMetadata, rest: Vec<PlaylistItem>, reply: SourceMetadata, started_now: bool },
    /// Starting fails with this error.
    Fail(BotError),
}

/// The events that can come at a stage (a listing is never empty).
pub open spec fn playlist_event_fits(stage: PlaylistStage, event: PlaylistEvent) -> bool {
    match stage {
        PlaylistStage::Joining => event is Joined,
        PlaylistStage::Listing { .. } => event matches PlaylistEvent::Listed(r) && (r matches Ok(
            v,
        ) ==> v@.len() > 0),
        PlaylistStage::LoadingFirst { .. } => event is FirstMetadata,
    }
}

/// The next step of starting a playlist: joining is checked first, then the
/// listing, then the first video's metadata; the first video is enqueued
/// before the others.
pub fn playlist_step(stage: PlaylistStage, event: PlaylistEvent, user: &Submitter) -> (r: (
    Option<PlaylistStage>,
    PlaylistAction,
))
    requires
        playlist_event_fits(stage, event),
    ensures
        match stage {
            PlaylistStage::Joining => match event {
                PlaylistEvent::Joined(None) => r == (
                    None::<PlaylistStage>,
                    PlaylistAction::Fail(BotError::ChannelUnavailable),
                ),
                PlaylistEvent::Joined(Some(idle)) => r == (
                    Some(PlaylistStage::Listing { idle }),
                    PlaylistAction::FetchListing,
                ),
                _ => true,
            },
            PlaylistStage::Listing { idle } => match event {
                PlaylistEvent::Listed(Err(e)) => r == (
                    None::<PlaylistStage>,
                    PlaylistAction::Fail(e),
                ),
                PlaylistEvent::Listed(Ok(v)) => {
                    &&& r.0 matches Some(PlaylistStage::LoadingFirst { idle: i, first: f, rest: later })
                        && i == idle && f == v@[0] && later@ == v@.drop_first()
                    &&& r.1 matches PlaylistAction::LoadFirst(url) && url@
                        == "https://www.youtube.com/watch?v="@ + v@[0].id@
                },
                _ => true,
            },
            PlaylistStage::LoadingFirst { idle, first, rest } => match event {
                PlaylistEvent::FirstMetadata { metadata: Err(m), .. } => r == (
                    None::<PlaylistStage>,
                    PlaylistAction::Fail(BotError::Source(m)),
                ),
                PlaylistEvent::FirstMetadata { metadata: Ok(meta), listed_secs } => {
                    &&& r.0 is None
                    &&& r.1 matches PlaylistAction::Start { first: t, rest: later, reply, started_now }
                        && is_first_track(t, first, listed_secs, meta, *user) && later@ == rest@
                        && reply == meta && started_now == idle
                },
                _ => true,
            },
        },
{
    match stage {
        PlaylistStage::Joining => match event {
            PlaylistEvent::Joined(Some(idle)) => (
                Some(PlaylistStage::Listing { idle }),
                PlaylistAction::FetchListing,
            ),
            _ => (None, PlaylistAction::Fail(BotError::ChannelUnavailable)),
        },
        PlaylistStage::Listing { idle } => match event {
            PlaylistEvent::Listed(Ok(items)) => {
                let mut rest = items;
                let first = rest.remove(0);
                let url = watch_url(first.id.as_str());
                (Some(PlaylistStage::LoadingFirst { idle, first, rest }), PlaylistAction::LoadFirst(url))
            },
            PlaylistEvent::Listed(Err(e)) => (None, PlaylistAction::Fail(e)),
            _ => (None, PlaylistAction::Fail(BotError::ChannelUnavailable)),
        },
        PlaylistStage::LoadingFirst { idle, first, rest } => match event {
            PlaylistEvent::FirstMetadata { metadata: Ok(meta), listed_secs } => {
                let t = first_playlist_track(&first, listed_secs, &meta, user.clone());
                (None, PlaylistAction::Start { first: t, rest, reply: meta, started_now: idle })
            },
            PlaylistEvent::FirstMetadata { metadata: Err(m), .. } => (
                None,
                PlaylistAction::Fail(BotError::Source(m)),
            ),
            _ => (None, PlaylistAction::Fail(BotError::ChannelUnavailable)),
        },
    }
}

/// The reply card's title: "Now Playing" when the track started right away,
/// "Queued" otherwise.
pub open spec fn reply_title(started_now: bool) -> Seq<char> {
    if started_now {
        "🎶  Now Playing  🎶"@
    } else {
        "🎶  Queued  🎶"@
    }
}

/// The reply's heading says "Now Playing" exactly when the track started
/// right away, "Queued" otherwise.
pub proof fn lemma_reply_heading(started_now: bool)
    ensures
        started_now ==> reply_title(started_now) == "🎶  Now Playing  🎶"@,
        !started_now ==> reply_title(started_now) == "🎶  Queued  🎶"@,
{
}

/// The reply card's text: the title in bold (a link when the source URL is
/// known) and the artist in bold, with `<unknown title>` and
/// `<unknown artist>` for missing ones.
pub open spec fn reply_text(metadata: SourceMetadata) -> Seq<char> {
    let title = match metadata.title {
        Some(t) => t@,
        None => "<unknown title>"@,
    };
    let artist = match metadata.artist {
        Some(a) => a@,
        None => "<unknown artist>"@,
    };
    match metadata.source_url {
        None => "**"@ + title + "** by **"@ + artist + "**"@,
        Some(url) => "[**"@ + title + "**]("@ + url@ + ") by **"@ + artist + "**"@,
    }
}

/// The reply text begins with the title the source gave, whatever the other
/// fields: as a link (`[**title**](url)`) when a URL is known, as bold text
/// followed by ` by **` otherwise; the `<unknown title>` placeholder stands
/// there only when the source gave no title.
pub proof fn lemma_reply_shows_title(m: SourceMetadata)
    ensures
        match m.title {
            Some(t) => match m.source_url {
                Some(u) => {
                    let pre = "[**"@ + t@ + "**]("@ + u@ + ") by **"@;
                    reply_text(m).take(pre.len() as int) == pre
                },
                None => {
                    let pre = "**"@ + t@ + "** by **"@;
                    reply_text(m).take(pre.len() as int) == pre
                },
            },
            None => match m.source_url {
                Some(u) => {
                    let pre = "[**"@ + "<unknown title>"@ + "**]("@ + u@ + ") by **"@;
                    reply_text(m).take(pre.len() as int) == pre
                },
                None => {
                    let pre = "**"@ + "<unknown title>"@ + "** by **"@;
                    reply_text(m).take(pre.len() as int) == pre
                },
            },
        },
{
    let text = reply_text(m);
    let artist = match m.artist {
        Some(a) => a@,
        None => "<unknown artist>"@,
    };
    match m.title {
        Some(t) => match m.source_url {
            Some(u) => {
                let pre = "[**"@ + t@ + "**]("@ + u@ + ") by **"@;
                assert(text == pre + (artist + "**"@));
                assert((pre + (artist + "**"@)).take(pre.len() as int) =~= pre);
            },
            None => {
                let pre = "**"@ + t@ + "** by **"@;
                assert(text == pre + (artist + "**"@));
                assert((pre + (artist + "**"@)).take(pre.len() as int) =~= pre);
            },
        },
        None => match m.source_url {
            Some(u) => {
                let pre = "[**"@ + "<unknown title>"@ + "**]("@ + u@ + ") by **"@;
                assert(text == pre + (artist + "**"@));
                assert((pre + (artist + "**"@)).take(pre.len() as int) =~= pre);
            },
            None => {
                let pre = "**"@ + "<unknown title>"@ + "** by **"@;
                assert(text == pre + (artist + "**"@));
                assert((pre + (artist + "**"@)).take(pre.len() as int) =~= pre);
            },
        },
    }
}

/// The reply text ends with the artist the source gave, in bold (or the
/// `<unknown artist>` placeholder when it gave none).
pub proof fn lemma_reply_shows_artist(m: SourceMetadata)
    ensures
        match m.artist {
            Some(a) => {
                let post = " by **"@ + a@ + "**"@;
                reply_text(m).skip(reply_text(m).len() - post.len()) == post
            },
            None => {
                let post = " by **"@ + "<unknown artist>"@ + "**"@;
                reply_text(m).skip(reply_text(m).len() - post.len()) == post
            },
        },
{
    let text = reply_text(m);
    let title = match m.title {
        Some(t) => t@,
        None => "<unknown title>"@,
    };
    let artist = match m.artist {
        Some(a) => a@,
        None => "<unknown artist>"@,
    };
    let post = " by **"@ + artist + "**"@;
    let head = match m.source_url {
        None => "**"@ + title + "**"@,
        Some(url) => "[**"@ + title + "**]("@ + url@ + ")"@,
    };
    reveal_strlit(" by **");
    reveal_strlit(") by **");
    reveal_strlit("** by **");
    reveal_strlit(")");
    reveal_strlit("**");
    assert(") by **"@ =~= ")"@ + " by **"@);
    assert("** by **"@ =~= "**"@ + " by **"@);
    assert(text =~= head + post);
    assert((head + post).skip(head.len() as int) =~= post);
}

/// The reply text depends on the source's title, artist and URL alone: its
/// length and thumbnail do not change it.
pub proof fn lemma_reply_text_ignores_other_fields(m1: SourceMetadata, m2: SourceMetadata)
    requires
        m1.title == m2.title,
        m1.artist == m2.artist,
        m1.source_url == m2.source_url,
    ensures
        reply_text(m1) == reply_text(m2),
{
}

/// The card `/play` answers with once the track is playing or queued; its
/// thumbnail is the source's (empty when it has none).
pub fn reply_embed(metadata: &SourceMetadata, started_now: bool) -> (e: Embed)
    ensures
        e.title matches Some(t) && t@ == reply_title(started_now),
        e.description@ == reply_text(*metadata),
        e.color == spec_brand_color(),
        e.author is None,
        e.thumbnail matches Some(t) && t@ == match metadata.thumbnail {
            Some(u) => u@,
            None => Seq::<char>::empty(),
        },
{
    let title = text_or(&metadata.title, "<unknown title>");
    let artist = text_or(&metadata.artist, "<unknown artist>");
    let heading = if started_now {
        String::from_str("🎶  Now Playing  🎶")
    } else {
        String::from_str("🎶  Queued  🎶")
    };
    let mut text = String::new();
    match &metadata.source_url {
        None => {
            text.append("**");
            text.append(title.as_str());
            text.append("** by **");
            text.append(artist.as_str());
            text.append("**");
        },
        Some(url) => {
            text.append("[**");
            text.append(title.as_str());
            text.append("**](");
            text.append(url.as_str());
            text.append(") by **");
            text.append(artist.as_str());
            text.append("**");
        },
    }
    let thumbnail = match &metadata.thumbnail {
        Some(u) => u.clone(),
        None => String::new(),
    };
    Embed {
        title: Some(heading),
        description: text,
        color: brand_color(),
        author: None,
        thumbnail: Some(thumbnail),
    }
}

} // verus!
