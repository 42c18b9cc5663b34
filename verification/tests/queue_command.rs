use acoustic::commands::queue::{create, display_name, format_duration, queue_embed};
use acoustic::embeds::{EmbedAuthor, Rgb};
use acoustic::queue_store::{Submitter, TrackMetadata};

fn user(name: &str, global: Option<&str>) -> Submitter {
    Submitter {
        name: name.to_string(),
        global_name: global.map(|g| g.to_string()),
        avatar_url: format!("https://cdn.example/{name}.png"),
    }
}

fn track(title: &str, secs: Option<u64>, thumb: Option<&str>, who: Submitter) -> TrackMetadata {
    TrackMetadata {
        title: title.to_string(),
        duration_secs: secs,
        thumbnail: thumb.map(|t| t.to_string()),
        user: who,
    }
}

#[test]
fn duration_unknown() {
    assert_eq!(format_duration(None), "Unknown");
}

#[test]
fn duration_under_an_hour() {
    assert_eq!(format_duration(Some(0)), "0:00");
    assert_eq!(format_duration(Some(9)), "0:09");
    assert_eq!(format_duration(Some(59)), "0:59");
    assert_eq!(format_duration(Some(61)), "1:01");
    assert_eq!(format_duration(Some(600)), "10:00");
    assert_eq!(format_duration(Some(3599)), "59:59");
}

#[test]
fn duration_of_hours() {
    assert_eq!(format_duration(Some(3600)), "1:00:00");
    assert_eq!(format_duration(Some(3725)), "1:02:05");
    assert_eq!(format_duration(Some(36000 + 11 * 60 + 42)), "10:11:42");
    assert_eq!(format_duration(Some(u64::MAX)), "5124095576030431:00:15");
}

#[test]
fn display_name_prefers_global_name() {
    assert_eq!(display_name(&user("ann", None)), "ann");
    assert_eq!(display_name(&user("bob", Some("Bobby"))), "Bobby");
}

#[test]
fn empty_queue_card() {
    let e = queue_embed(&Vec::new());
    assert_eq!(e.title.as_deref(), Some("Queue"));
    assert_eq!(e.description, "Queue is empty");
    assert_eq!(e.color, Rgb { red: 34, green: 255, blue: 253 });
    assert!(e.author.is_none());
    assert!(e.thumbnail.is_none());
}

#[test]
fn single_track_card() {
    let tracks = vec![track("Song A", Some(185), Some("thumb-a"), user("ann", None))];
    let e = queue_embed(&tracks);
    assert!(e.title.is_none());
    assert_eq!(e.description, "**Now Playing**\n1. Song A (3:05) — ann\n");
    assert_eq!(
        e.author,
        Some(EmbedAuthor { name: "ann".to_string(), icon_url: "https://cdn.example/ann.png".to_string() })
    );
    assert_eq!(e.thumbnail.as_deref(), Some("thumb-a"));
    assert_eq!(e.color, Rgb { red: 34, green: 255, blue: 253 });
}

#[test]
fn several_tracks_card() {
    let tracks = vec![
        track("Song A", Some(185), None, user("ann", Some("Annie"))),
        track("Song B", None, Some("thumb-b"), user("bob", None)),
        track("Song C", Some(3725), None, user("cy", None)),
    ];
    let e = queue_embed(&tracks);
    assert_eq!(
        e.description,
        "**Now Playing**\n1. Song A (3:05) — Annie\n\n**Up Next**\n2. Song B (Unknown) — bob\n3. Song C (1:02:05) — cy\n"
    );
    assert_eq!(e.author.as_ref().map(|a| a.name.as_str()), Some("Annie"));
    assert!(e.thumbnail.is_none());
}

#[test]
fn queue_definition() {
    let c = create();
    assert_eq!(c.name, "queue");
    assert_eq!(c.description, "display the current song queue");
    assert!(c.options.is_empty());
}

fn read_back(text: &str) -> u64 {
    let fields: Vec<&str> = text.split(':').collect();
    assert!(fields.len() == 2 || fields.len() == 3, "{text}");
    for f in &fields[1..] {
        assert_eq!(f.len(), 2, "{text}");
        assert!(f.parse::<u64>().unwrap() < 60, "{text}");
    }
    if fields.len() == 3 {
        assert!(fields[0].parse::<u64>().unwrap() >= 1);
    }
    fields.iter().fold(0, |acc, f| acc * 60 + f.parse::<u64>().unwrap())
}

#[test]
fn duration_reads_back() {
    for secs in [0, 1, 59, 60, 61, 599, 3599, 3600, 3601, 86399, 86400, 359999, 360000, 1 << 40] {
        let text = format_duration(Some(secs));
        assert_eq!(read_back(&text), secs, "{text}");
        assert_eq!(text.split(':').count() == 3, secs >= 3600);
    }
}
