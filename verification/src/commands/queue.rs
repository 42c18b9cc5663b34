//! `/queue`: lists the guild's queue, the playing track first.

use vstd::prelude::*;

use crate::commands::{CommandDef, StringOptionDef};
use crate::embeds::{brand_color, spec_brand_color, Embed, EmbedAuthor};
use crate::queue_store::{Submitter, TrackMetadata};
use crate::text::{
    is_digit,
    has_substring, occurs_at,
    all_digits, decimal, decimal_value, lemma_decimal_reads_back, lemma_two_digits_reads_back,
    push_char, push_decimal, push_two_digits, two_digits,
};

verus! {

/// The definition of `/queue`.
pub fn create() -> (c: CommandDef)
    ensures
        c.name@ == "queue"@,
        c.description@ == "display the current song queue"@,
        c.options@.len() == 0,
{
    let options: Vec<StringOptionDef> = Vec::new();
    CommandDef {
        name: String::from_str("queue"),
        description: String::from_str("display the current song queue"),
        options,
    }
}

/// A length in seconds as the listing shows it: `h:mm:ss` from one hour
/// up, `m:ss` below, `Unknown` when the length is not known.
pub open spec fn duration_text(duration_secs: Option<u64>) -> Seq<char> {
    match duration_secs {
        None => "Unknown"@,
        Some(s) => {
            let hours = s / 3600;
            let minutes = (s % 3600) / 60;
            let seconds = s % 60;
            if hours > 0 {
                decimal(hours as nat) + seq![':'] + two_digits(minutes as nat) + seq![':']
                    + two_digits(seconds as nat)
            } else {
                decimal(minutes as nat) + seq![':'] + two_digits(seconds as nat)
            }
        },
    }
}

/// Renders a track length (in whole seconds) for the queue listing.
pub fn format_duration(dur: Option<u64>) -> (s: String)
    ensures
        s@ == duration_text(dur),
{
    match dur {
        Some(secs) => {
            let hours = secs / 3600;
            let minutes = (secs % 3600) / 60;
            let seconds = secs % 60;
            let mut out = String::new();
            if hours > 0 {
                push_decimal(&mut out, hours);
                push_char(&mut out, ':');
                push_two_digits(&mut out, minutes);
                push_char(&mut out, ':');
                push_two_digits(&mut out, seconds);
            } else {
                push_decimal(&mut out, minutes);
                push_char(&mut out, ':');
                push_two_digits(&mut out, seconds);
            }
            out
        },
        None => String::from_str("Unknown"),
    }
}

/// `text` is the fields `a`, `b` joined by `:`.
pub open spec fn joined2(text: Seq<char>, a: Seq<char>, b: Seq<char>) -> bool {
    text == a + seq![':'] + b
}

/// `text` is the fields `a`, `b`, `c` joined by `:`.
pub open spec fn joined3(text: Seq<char>, a: Seq<char>, b: Seq<char>, c: Seq<char>) -> bool {
    text == a + seq![':'] + b + seq![':'] + c
}

/// The printed length reads back to the length: below an hour it is
/// `minutes:seconds`, from an hour up `hours:minutes:seconds` with at least
/// one hour; every field is digits only, minutes and seconds are below 60,
/// and the fields after the first are exactly two digits.
pub proof fn lemma_duration_text_reads_back(secs: u64)
    ensures
        secs < 3600 ==> exists|m: Seq<char>, s: Seq<char>|
            #[trigger] joined2(duration_text(Some(secs)), m, s) && m.len() > 0 && all_digits(m)
                && s.len() == 2 && all_digits(s) && decimal_value(s) < 60 && decimal_value(m) * 60
                + decimal_value(s) == secs,
        secs >= 3600 ==> exists|h: Seq<char>, m: Seq<char>, s: Seq<char>|
            #[trigger] joined3(duration_text(Some(secs)), h, m, s) && h.len() > 0 && all_digits(h)
                && decimal_value(h) >= 1 && m.len() == 2 && all_digits(m) && decimal_value(m) < 60
                && s.len() == 2 && all_digits(s) && decimal_value(s) < 60 && decimal_value(h) * 3600
                + decimal_value(m) * 60 + decimal_value(s) == secs,
{
    let hours = secs / 3600;
    let minutes = (secs % 3600) / 60;
    let seconds = secs % 60;
    lemma_two_digits_reads_back(seconds as nat);
    if hours > 0 {
        lemma_decimal_reads_back(hours as nat);
        lemma_two_digits_reads_back(minutes as nat);
        assert(joined3(
            duration_text(Some(secs)),
            decimal(hours as nat),
            two_digits(minutes as nat),
            two_digits(seconds as nat),
        ));
    } else {
        lemma_decimal_reads_back(minutes as nat);
        assert(joined2(duration_text(Some(secs)), decimal(minutes as nat), two_digits(seconds as nat)));
    }
}

/// An unknown length is shown as `Unknown`; a known one never is (it is
/// made of digits and colons only).
pub proof fn lemma_unknown_length_only_when_missing(secs: u64)
    ensures
        duration_text(None) == "Unknown"@,
        forall|i: int|
            0 <= i < duration_text(Some(secs)).len() ==> is_digit(
                #[trigger] duration_text(Some(secs))[i],
            ) || duration_text(Some(secs))[i] == ':',
{
    lemma_duration_text_reads_back(secs);
    let text = duration_text(Some(secs));
    if secs < 3600 {
        let (m, sec) = choose|m: Seq<char>, s: Seq<char>|
            #[trigger] joined2(text, m, s) && m.len() > 0 && all_digits(m) && s.len() == 2
                && all_digits(s) && decimal_value(s) < 60 && decimal_value(m) * 60 + decimal_value(s)
                == secs;
        assert forall|i: int| 0 <= i < text.len() implies is_digit(#[trigger] text[i]) || text[i]
            == ':' by {
            if i < m.len() {
                assert(text[i] == m[i]);
            } else if i > m.len() {
                assert(text[i] == sec[i - m.len() - 1]);
            }
        }
    } else {
        let (h, m, sec) = choose|h: Seq<char>, m: Seq<char>, s: Seq<char>|
            #[trigger] joined3(text, h, m, s) && h.len() > 0 && all_digits(h) && decimal_value(h)
                >= 1 && m.len() == 2 && all_digits(m) && decimal_value(m) < 60 && s.len() == 2
                && all_digits(s) && decimal_value(s) < 60 && decimal_value(h) * 3600 + decimal_value(
                m,
            ) * 60 + decimal_value(s) == secs;
        assert forall|i: int| 0 <= i < text.len() implies is_digit(#[trigger] text[i]) || text[i]
            == ':' by {
            if i < h.len() {
                assert(text[i] == h[i]);
            } else if h.len() < i < h.len() + 3 {
                assert(text[i] == m[i - h.len() - 1]);
            } else if i > h.len() + 3 {
                assert(text[i] == sec[i - h.len() - 4]);
            }
        }
    }
}

/// A user is listed under the display name when one is set, else under the
/// account name.
pub proof fn lemma_listed_name(user: Submitter)
    ensures
        user.global_name matches Some(g) ==> spec_display_name(user) == g@,
        user.global_name is None ==> spec_display_name(user) == user.name@,
{
}

/// The name a user is listed under: the display name when set, else the
/// account name.
pub open spec fn spec_display_name(user: Submitter) -> Seq<char> {
    match user.global_name {
        Some(g) => g@,
        None => user.name@,
    }
}

/// The name a user is listed under.
pub fn display_name(user: &Submitter) -> (s: String)
    ensures
        s@ == spec_display_name(*user),
{
    match &user.global_name {
        Some(g) => g.clone(),
        None => user.name.clone(),
    }
}

/// The listing line of the track at position `i` (counted from 0):
/// `"{i + 1}. {title} ({length}) — {submitter}\n"`.
pub open spec fn queue_line(i: nat, track: TrackMetadata) -> Seq<char> {
    decimal(i + 1) + ". "@ + track.title@ + " ("@ + duration_text(track.duration_secs) + ") — "@
        + spec_display_name(track.user) + seq!['\n']
}

/// The listing of the first `n` tracks: their lines in order, with the
/// "Up Next" heading before the second one.
pub open spec fn queue_lines(tracks: Seq<TrackMetadata>, n: nat) -> Seq<char>
    decreases n,
{
    if n == 0 {
        Seq::empty()
    } else {
        queue_lines(tracks, (n - 1) as nat) + (if n - 1 == 1 {
            "\n**Up Next**\n"@
        } else {
            Seq::empty()
        }) + queue_line((n - 1) as nat, tracks[n - 1])
    }
}

/// The body of the queue card for a non-empty queue.
pub open spec fn queue_description(tracks: Seq<TrackMetadata>) -> Seq<char> {
    "**Now Playing**\n"@ + queue_lines(tracks, tracks.len())
}

proof fn lemma_queue_lines_push(tracks: Seq<TrackMetadata>, t: TrackMetadata, n: nat)
    requires
        n <= tracks.len(),
    ensures
        queue_lines(tracks.push(t), n) == queue_lines(tracks, n),
    decreases n,
{
    if n > 0 {
        lemma_queue_lines_push(tracks, t, (n - 1) as nat);
        assert(tracks.push(t)[n - 1] == tracks[n - 1]);
    }
}

/// Putting a track at the end of the queue adds exactly its line at the end
/// of the listing: `"{position}. {title} ({length}) — {submitter}\n"`, where
/// the position counts from 1, preceded by the "Up Next" heading when it is
/// the second track. A single track is listed under "Now Playing" alone.
pub proof fn lemma_queue_listing_grows_by_one_line(tracks: Seq<TrackMetadata>, t: TrackMetadata)
    ensures
        tracks.len() == 0 ==> queue_description(tracks.push(t)) == "**Now Playing**\n"@ + seq!['1']
            + ". "@ + t.title@ + " ("@ + duration_text(t.duration_secs) + ") — "@
            + spec_display_name(t.user) + seq!['\n'],
        tracks.len() == 1 ==> queue_description(tracks.push(t)) == queue_description(tracks)
            + "\n**Up Next**\n"@ + seq!['2'] + ". "@ + t.title@ + " ("@ + duration_text(
            t.duration_secs,
        ) + ") — "@ + spec_display_name(t.user) + seq!['\n'],
        tracks.len() > 1 ==> queue_description(tracks.push(t)) == queue_description(tracks)
            + decimal(tracks.len() + 1) + ". "@ + t.title@ + " ("@ + duration_text(t.duration_secs)
            + ") — "@ + spec_display_name(t.user) + seq!['\n'],
{
    let n = tracks.len();
    let longer = tracks.push(t);
    assert(longer.drop_last() =~= tracks);
    assert(longer.last() == t);
    lemma_listing_split(longer);
    if n == 0 {
        assert(decimal(1) == seq!['1']);
        assert(queue_lines(tracks, 0) == Seq::<char>::empty());
        assert(queue_description(tracks) =~= "**Now Playing**\n"@);
    } else if n == 1 {
        assert(decimal(2) == seq!['2']);
    }
}

proof fn lemma_listing_split(tracks: Seq<TrackMetadata>)
    requires
        tracks.len() >= 1,
    ensures
        queue_description(tracks) == queue_description(tracks.drop_last()) + (if tracks.len() == 2 {
            "\n**Up Next**\n"@
        } else {
            Seq::<char>::empty()
        }) + queue_line((tracks.len() - 1) as nat, tracks.last()),
{
    let n = tracks.len();
    let shorter = tracks.drop_last();
    assert(shorter.push(tracks.last()) =~= tracks);
    lemma_queue_lines_push(shorter, tracks.last(), (n - 1) as nat);
}

/// Every queued track has its line in the listing, numbered by its position
/// (counted from 1).
pub proof fn lemma_queue_listing_has_every_track(tracks: Seq<TrackMetadata>, k: int)
    requires
        0 <= k < tracks.len(),
    ensures
        has_substring(
            queue_description(tracks),
            decimal((k + 1) as nat) + ". "@ + tracks[k].title@ + " ("@ + duration_text(
                tracks[k].duration_secs,
            ) + ") — "@ + spec_display_name(tracks[k].user) + seq!['\n'],
        ),
    decreases tracks.len(),
{
    let n = tracks.len();
    let line = queue_line(k as nat, tracks[k]);
    let d = queue_description(tracks);
    let ds = queue_description(tracks.drop_last());
    let mid = if n == 2 {
        "\n**Up Next**\n"@
    } else {
        Seq::<char>::empty()
    };
    lemma_listing_split(tracks);
    assert(d == ds + mid + queue_line((n - 1) as nat, tracks.last()));
    if k == n - 1 {
        let before = d.len() - line.len();
        assert(d.subrange(before, before + line.len()) =~= line);
        assert(occurs_at(d, line, before));
    } else {
        assert(tracks.drop_last()[k] == tracks[k]);
        lemma_queue_listing_has_every_track(tracks.drop_last(), k);
        let i = choose|i: int| occurs_at(ds, line, i);
        assert(d.subrange(i, i + line.len()) =~= ds.subrange(i, i + line.len()));
        assert(occurs_at(d, line, i));
    }
}

/// The card `/queue` answers with: "Queue is empty" for an empty queue;
/// otherwise the listing, headed by the submitter of the playing track and
/// showing that track's thumbnail when it has one.
pub fn queue_embed(tracks: &Vec<TrackMetadata>) -> (e: Embed)
    ensures
        e.color == spec_brand_color(),
        tracks@.len() == 0 ==> {
            &&& e.title matches Some(t) && t@ == "Queue"@
            &&& e.description@ == "Queue is empty"@
            &&& e.author is None
            &&& e.thumbnail is None
        },
        tracks@.len() > 0 ==> {
            &&& e.title is None
            &&& e.description@ == queue_description(tracks@)
            &&& e.author matches Some(a) && a.name@ == spec_display_name(tracks@[0].user)
                && a.icon_url@ == tracks@[0].user.avatar_url@
            &&& e.thumbnail == tracks@[0].thumbnail
        },
{
    if tracks.len() == 0 {
        return Embed {
            title: Some(String::from_str("Queue")),
            description: String::from_str("Queue is empty"),
            color: brand_color(),
            author: None,
            thumbnail: None,
        };
    }
    let first = &tracks[0];
    let mut description = String::from_str("**Now Playing**\n");
    let mut i: usize = 0;
    while i < tracks.len()
        invariant
            i <= tracks.len(),
            description@ == "**Now Playing**\n"@ + queue_lines(tracks@, i as nat),
        decreases tracks.len() - i,
    {
        let item = &tracks[i];
        let ghost before = description@;
        if i == 1 {
            description.append("\n**Up Next**\n");
        }
        let ghost with_heading = description@;
        push_decimal(&mut description, (i + 1) as u64);
        description.append(". ");
        description.append(item.title.as_str());
        description.append(" (");
        let length = format_duration(item.duration_secs);
        description.append(length.as_str());
        description.append(") — ");
        let submitter = display_name(&item.user);
        description.append(submitter.as_str());
        push_char(&mut description, '\n');
        assert(description@ == with_heading + queue_line(i as nat, tracks@[i as int]));
        i += 1;
        assert(description@ == "**Now Playing**\n"@ + queue_lines(tracks@, i as nat));
    }
    let thumbnail = match &first.thumbnail {
        Some(t) => Some(t.clone()),
        None => None,
    };
    Embed {
        title: None,
        description,
        color: brand_color(),
        author: Some(EmbedAuthor { name: display_name(&first.user), icon_url: first.user.avatar_url.clone() }),
        thumbnail,
    }
}

} // verus!
