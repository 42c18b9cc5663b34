//! Reading the output of `yt-dlp --flat-playlist -j`: one JSON object per
//! line, one line per video of the playlist.

use vstd::prelude::*;
use vstd::utf8::{decode_utf8, valid_utf8};

use crate::errors::BotError;
use crate::text::{lemma_final_line_ending_is_optional, lines, lines_of};

verus! {

#[verifier::external_type_specification]
#[verifier::external_body]
pub struct ExJsonError(serde_json::Error);

/// One video of a playlist.
#[derive(Debug, Clone, PartialEq, Eq)]
pub struct PlaylistItem {
    pub id: String,
    pub title: String,
    /// The length in seconds `yt-dlp` reported, as the text of the JSON
    /// number (`212`, `212.5`, ...).
    pub duration: Option<String>,
    pub thumbnail: Option<String>,
}

/// The fields the bot reads from one line of `yt-dlp` output; each is
/// present only when the line's JSON object holds it with the expected type.
#[derive(Debug, Clone, PartialEq, Eq)]
pub struct EntryFields {
    pub id: Option<String>,
    pub title: Option<String>,
    /// The text of a JSON number.
    pub duration: Option<String>,
    pub thumbnail: Option<String>,
}

pub open spec fn opt_chars(o: Option<String>) -> Option<Seq<char>> {
    match o {
        Some(s) => Some(s@),
        None => None,
    }
}

/// Whether `serde_json::from_str` accepts the line as a JSON document.
pub uninterp spec fn json_parses(line: Seq<char>) -> bool;

/// The string under `key` in the JSON document a line holds, as serde_json's
/// `value[key].as_str()` gives it: `None` when the document is no object,
/// lacks the key, or holds something else than a string there.
pub uninterp spec fn json_string_at(line: Seq<char>, key: Seq<char>) -> Option<Seq<char>>;

/// The number under `key` in the JSON document a line holds, as serde_json
/// prints it (`value[key].as_number()`, then `Display`): `None` when there is
/// no number there.
pub uninterp spec fn json_number_text_at(line: Seq<char>, key: Seq<char>) -> Option<Seq<char>>;

/// Parses one line with `serde_json::from_str` into a `serde_json::Value`,
/// reads the strings under three keys with `as_str` and the number under a
/// fourth with `as_number`, printed with its `Display`. The contract ties the
/// success of the parse to `json_parses` and each field to `json_string_at`
/// or `json_number_text_at` of the line and its key.
#[verifier::external_body]
fn read_entry_line(
    line: &str,
    id_key: &str,
    title_key: &str,
    thumbnail_key: &str,
    duration_key: &str,
) -> (r: Result<EntryFields, serde_json::Error>)
    ensures
        r is Ok <==> json_parses(line@),
        r matches Ok(f) ==> {
            &&& opt_chars(f.id) == json_string_at(line@, id_key@)
            &&& opt_chars(f.title) == json_string_at(line@, title_key@)
            &&& opt_chars(f.thumbnail) == json_string_at(line@, thumbnail_key@)
            &&& opt_chars(f.duration) == json_number_text_at(line@, duration_key@)
        },
{
    let value: serde_json::Value = serde_json::from_str(line)?;
    Ok(EntryFields {
        id: value[id_key].as_str().map(String::from),
        title: value[title_key].as_str().map(String::from),
        duration: value[duration_key].as_number().map(|n| n.to_string()),
        thumbnail: value[thumbnail_key].as_str().map(String::from),
    })
}

/// An entry as the contracts see it: id, title, thumbnail and length text.
pub type EntryView = (Seq<char>, Seq<char>, Option<Seq<char>>, Option<Seq<char>>);

/// The message `String::from_utf8` gives (through its error's `Display`)
/// for bytes that are not UTF-8.
pub uninterp spec fn utf8_error_text(bytes: Seq<u8>) -> Seq<char>;

/// `String::from_utf8`, with the error turned into its message: `Ok` exactly
/// for valid UTF-8, holding the decoded text.
#[verifier::external_body]
fn decode_utf8_strict(bytes: Vec<u8>) -> (r: Result<String, String>)
    ensures
        r is Ok <==> valid_utf8(bytes@),
        r matches Ok(s) ==> s@ == decode_utf8(bytes@),
        r matches Err(m) ==> m@ == utf8_error_text(bytes@),
{
    String::from_utf8(bytes).map_err(|e| e.to_string())
}

/// What `String::from_utf8_lossy` makes of some bytes.
pub uninterp spec fn lossy_text(bytes: Seq<u8>) -> Seq<char>;

/// `String::from_utf8_lossy`: invalid sequences become U+FFFD; valid UTF-8
/// is decoded unchanged.
#[verifier::external_body]
fn decode_utf8_lossy(bytes: &Vec<u8>) -> (s: String)
    ensures
        s@ == lossy_text(bytes@),
        valid_utf8(bytes@) ==> s@ == decode_utf8(bytes@),
{
    String::from_utf8_lossy(bytes.as_slice()).into_owned()
}

/// The id, title, thumbnail and length text of a playlist item.
pub open spec fn item_view(item: PlaylistItem) -> EntryView {
    (item.id@, item.title@, opt_chars(item.thumbnail), opt_chars(item.duration))
}

/// What one non-empty output line contributes: its id, its title (or
/// `<unknown>`), its thumbnail and its length text, or the error the line
/// causes.
pub open spec fn entry_outcome(line: Seq<char>) -> Result<EntryView, BotError> {
    if !json_parses(line) {
        Err(BotError::MalformedPlaylistLine)
    } else {
        match json_string_at(line, "id"@) {
            None => Err(BotError::MissingVideoId),
            Some(i) => Ok(
                (
                    i,
                    match json_string_at(line, "title"@) {
                        Some(t) => t,
                        None => "<unknown>"@,
                    },
                    json_string_at(line, "thumbnail"@),
                    json_number_text_at(line, "duration"@),
                ),
            ),
        }
    }
}

/// The entries of the given lines, in order; empty lines are skipped and the
/// first line that fails decides the error.
pub open spec fn parsed_entries(ls: Seq<Seq<char>>) -> Result<Seq<EntryView>, BotError>
    decreases ls.len(),
{
    if ls.len() == 0 {
        Ok(Seq::empty())
    } else {
        match parsed_entries(ls.drop_last()) {
            Err(e) => Err(e),
            Ok(prev) => if ls.last().len() == 0 {
                Ok(prev)
            } else {
                match entry_outcome(ls.last()) {
                    Err(e) => Err(e),
                    Ok(entry) => Ok(prev.push(entry)),
                }
            },
        }
    }
}

/// The playlist a text of `yt-dlp` output describes: its entries, or an
/// error when a line fails or there is no entry at all.
pub open spec fn playlist_from_text(text: Seq<char>) -> Result<Seq<EntryView>, BotError> {
    match parsed_entries(lines_of(text)) {
        Err(e) => Err(e),
        Ok(entries) => if entries.len() == 0 {
            Err(BotError::EmptyPlaylist)
        } else {
            Ok(entries)
        },
    }
}

/// The playlist item one parsed line describes: the id is required, the
/// title falls back to `<unknown>`.
pub fn item_from_fields(fields: EntryFields) -> (r: Result<PlaylistItem, BotError>)
    ensures
        match fields.id {
            None => r == Err::<PlaylistItem, BotError>(BotError::MissingVideoId),
            Some(id) => r matches Ok(item) && item.id == id && item.title@ == match fields.title {
                Some(t) => t@,
                None => "<unknown>"@,
            } && item.thumbnail == fields.thumbnail && item.duration == fields.duration,
        },
{
    match fields.id {
        None => Err(BotError::MissingVideoId),
        Some(id) => {
            let title = match fields.title {
                Some(t) => t,
                None => String::from_str("<unknown>"),
            };
            Ok(PlaylistItem { id, title, duration: fields.duration, thumbnail: fields.thumbnail })
        },
    }
}

/// Reads the playlist out of `yt-dlp`'s (already decoded) output.
pub fn parse_playlist(text: &str) -> (r: Result<Vec<PlaylistItem>, BotError>)
    ensures
        match playlist_from_text(text@) {
            Err(e) => r == Err::<Vec<PlaylistItem>, BotError>(e),
            Ok(entries) => r matches Ok(items) && items@.len() == entries.len() && forall|i: int|
                0 <= i < entries.len() ==> #[trigger] item_view(items@[i]) == entries[i],
        },
{
    let ls = lines(text);
    let ghost all = lines_of(text@);
    let mut items: Vec<PlaylistItem> = Vec::new();
    let mut i: usize = 0;
    assert(all.take(0) =~= Seq::<Seq<char>>::empty());
    while i < ls.len()
        invariant
            i <= ls.len(),
            all == lines_of(text@),
            ls@.len() == all.len(),
            forall|k: int| 0 <= k < ls@.len() ==> #[trigger] ls@[k]@ == all[k],
            parsed_entries(all.take(i as int)) matches Ok(entries) && items@.len() == entries.len()
                && forall|k: int| 0 <= k < entries.len() ==> #[trigger] item_view(items@[k])
                    == entries[k],
        decreases ls.len() - i,
    {
        let line = &ls[i];
        let ghost prefix = all.take(i + 1);
        assert(prefix.drop_last() =~= all.take(i as int));
        assert(prefix.last() == line@);
        if !line.as_str().is_empty() {
            assert(line@.len() != 0);
            let fields = match read_entry_line(line.as_str(), "id", "title", "thumbnail", "duration") {
                Ok(f) => f,
                Err(_) => {
                    assert(parsed_entries(prefix) == Err::<Seq<EntryView>, BotError>(BotError::MalformedPlaylistLine));
                    proof {
                        lemma_error_persists(all, (i + 1) as nat);
                    }
                    return Err(BotError::MalformedPlaylistLine);
                },
            };
            match item_from_fields(fields) {
                Ok(item) => {
                    items.push(item);
                },
                Err(e) => {
                    proof {
                        lemma_error_persists(all, (i + 1) as nat);
                    }
                    return Err(e);
                },
            }
        } else {
            assert(line@.len() == 0);
        }
        i += 1;
    }
    assert(all.take(ls.len() as int) =~= all);
    if items.len() == 0 {
        return Err(BotError::EmptyPlaylist);
    }
    Ok(items)
}

/// Once a prefix of the lines fails, every longer prefix fails the same way.
proof fn lemma_error_persists(all: Seq<Seq<char>>, n: nat)
    requires
        n <= all.len(),
        parsed_entries(all.take(n as int)) is Err,
    ensures
        parsed_entries(all) == parsed_entries(all.take(n as int)),
    decreases all.len() - n,
{
    if n < all.len() {
        let next = all.take(n + 1 as int);
        assert(next.drop_last() =~= all.take(n as int));
        lemma_error_persists(all, (n + 1) as nat);
    } else {
        assert(all.take(n as int) =~= all);
    }
}

/// The playlist that a finished run of `yt-dlp` reports: a failed run gives
/// its error output as the error; output that is not UTF-8 gives the
/// decoder's message; otherwise the output is read as `parse_playlist` does.
pub fn playlist_from_output(succeeded: bool, stdout: Vec<u8>, stderr: &Vec<u8>) -> (r: Result<
    Vec<PlaylistItem>,
    BotError,
>)
    ensures
        !succeeded ==> (r matches Err(BotError::PlaylistFetchFailed(m)) && m@ == lossy_text(stderr@)
            && (valid_utf8(stderr@) ==> m@ == decode_utf8(stderr@))),
        succeeded && !valid_utf8(stdout@) ==> (r matches Err(BotError::InvalidUtf8(m)) && m@
            == utf8_error_text(stdout@)),
        succeeded && valid_utf8(stdout@) ==> match playlist_from_text(decode_utf8(stdout@)) {
            Err(e) => r == Err::<Vec<PlaylistItem>, BotError>(e),
            Ok(entries) => r matches Ok(items) && items@.len() == entries.len() && forall|i: int|
                0 <= i < entries.len() ==> #[trigger] item_view(items@[i]) == entries[i],
        },
{
    if !succeeded {
        return Err(BotError::PlaylistFetchFailed(decode_utf8_lossy(stderr)));
    }
    match decode_utf8_strict(stdout) {
        Err(m) => Err(BotError::InvalidUtf8(m)),
        Ok(text) => parse_playlist(text.as_str()),
    }
}


/// A line `yt-dlp` printed for a video the bot can use: not empty, JSON,
/// with a string id.
pub open spec fn good_line(l: Seq<char>) -> bool {
    l.len() > 0 && json_parses(l) && json_string_at(l, "id"@) is Some
}

/// A good line adds exactly one entry, after those of the lines before it
/// (however many there are): its id, its title (or `<unknown>`), its
/// thumbnail and its length text.
pub proof fn lemma_good_line_adds_its_entry(ls: Seq<Seq<char>>, l: Seq<char>)
    requires
        parsed_entries(ls) is Ok,
        good_line(l),
    ensures
        parsed_entries(ls.push(l)) == Ok::<Seq<EntryView>, BotError>(
            parsed_entries(ls)->Ok_0.push(
                (
                    json_string_at(l, "id"@)->0,
                    match json_string_at(l, "title"@) {
                        Some(t) => t,
                        None => "<unknown>"@,
                    },
                    json_string_at(l, "thumbnail"@),
                    json_number_text_at(l, "duration"@),
                ),
            ),
        ),
{
    assert(ls.push(l).drop_last() =~= ls);
}

/// An empty line adds nothing.
pub proof fn lemma_empty_line_adds_nothing(ls: Seq<Seq<char>>)
    ensures
        parsed_entries(ls.push(Seq::empty())) == parsed_entries(ls),
{
    assert(ls.push(Seq::empty()).drop_last() =~= ls);
}

/// A non-empty line that is not JSON, or that has no string id, makes the
/// whole output fail with that line's error, whatever follows it.
pub proof fn lemma_bad_line_fails(ls: Seq<Seq<char>>, l: Seq<char>, more: Seq<Seq<char>>)
    requires
        parsed_entries(ls) is Ok,
        l.len() > 0,
        !good_line(l),
    ensures
        !json_parses(l) ==> parsed_entries(ls.push(l) + more) == Err::<Seq<EntryView>, BotError>(
            BotError::MalformedPlaylistLine,
        ),
        json_parses(l) ==> parsed_entries(ls.push(l) + more) == Err::<Seq<EntryView>, BotError>(
            BotError::MissingVideoId,
        ),
{
    assert(ls.push(l).drop_last() =~= ls);
    lemma_failure_is_kept(ls.push(l), more);
}

/// Once some lines fail, no further lines change the outcome.
pub proof fn lemma_failure_is_kept(ls: Seq<Seq<char>>, more: Seq<Seq<char>>)
    requires
        parsed_entries(ls) is Err,
    ensures
        parsed_entries(ls + more) == parsed_entries(ls),
    decreases more.len(),
{
    if more.len() > 0 {
        lemma_failure_is_kept(ls, more.drop_last());
        assert((ls + more).drop_last() =~= ls + more.drop_last());
    } else {
        assert(ls + more =~= ls);
    }
}

/// When every line is empty or good, the output gives one entry per
/// non-empty line, in order, each with that line's id.
pub proof fn lemma_one_entry_per_good_line(ls: Seq<Seq<char>>)
    requires
        forall|i: int| 0 <= i < ls.len() ==> #[trigger] ls[i].len() == 0 || good_line(ls[i]),
    ensures
        parsed_entries(ls) matches Ok(es) && es.len() == ls.filter(|l: Seq<char>| l.len() > 0).len()
            && forall|i: int|
            0 <= i < es.len() ==> Some(#[trigger] es[i].0) == json_string_at(
                ls.filter(|l: Seq<char>| l.len() > 0)[i],
                "id"@,
            ),
    decreases ls.len(),
{
    reveal_with_fuel(Seq::filter, 1);
    if ls.len() > 0 {
        let shorter = ls.drop_last();
        assert forall|i: int| 0 <= i < shorter.len() implies #[trigger] shorter[i].len() == 0
            || good_line(shorter[i]) by {
            assert(shorter[i] == ls[i]);
        }
        lemma_one_entry_per_good_line(shorter);
        assert(shorter.push(ls.last()) =~= ls);
        assert(ls.last() == ls[ls.len() - 1]);
        if ls.last().len() > 0 {
            lemma_good_line_adds_its_entry(shorter, ls.last());
        }
    }
}

/// The playlist of a text is every entry its lines give, as long as there is
/// at least one; an empty listing is an error.
pub proof fn lemma_playlist_is_all_entries(text: Seq<char>)
    ensures
        match parsed_entries(lines_of(text)) {
            Ok(es) => if es.len() > 0 {
                playlist_from_text(text) == Ok::<Seq<EntryView>, BotError>(es)
            } else {
                playlist_from_text(text) == Err::<Seq<EntryView>, BotError>(BotError::EmptyPlaylist)
            },
            Err(e) => playlist_from_text(text) == Err::<Seq<EntryView>, BotError>(e),
        },
{
}

/// Whether `yt-dlp`'s output ends with a line ending or not makes no
/// difference to the playlist read from it.
pub proof fn lemma_playlist_ignores_final_line_ending(text: Seq<char>)
    requires
        text.len() > 0,
        text.last() != '\n',
        text.last() != '\r',
    ensures
        playlist_from_text(text + seq!['\n']) == playlist_from_text(text),
        playlist_from_text(text + seq!['\r', '\n']) == playlist_from_text(text),
{
    lemma_final_line_ending_is_optional(text);
}

} // verus!
