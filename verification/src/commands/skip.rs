//! `/skip`: ends the playing track so the next one starts.

use vstd::prelude::*;

use crate::commands::{CommandDef, StringOptionDef};
use crate::embeds::{notice, spec_brand_color, Embed};
use crate::errors::BotError;

verus! {

/// The definition of `/skip`.
pub fn create() -> (c: CommandDef)
    ensures
        c.name@ == "skip"@,
        c.description@ == "skip to the next song in the queue"@,
        c.options@.len() == 0,
{
    let options: Vec<StringOptionDef> = Vec::new();
    CommandDef {
        name: String::from_str("skip"),
        description: String::from_str("skip to the next song in the queue"),
        options,
    }
}

/// The card `/skip` answers with once the track was skipped.
pub fn skipped_embed() -> (e: Embed)
    ensures
        e.title is None,
        e.description@ == "Song has been skipped"@,
        e.color == spec_brand_color(),
        e.author is None,
        e.thumbnail is None,
{
    notice("Song has been skipped")
}


/// What the outside steps of `/skip` report, in the order they happen.
#[derive(Debug, Clone, Copy, PartialEq, Eq)]
pub enum SkipEvent {
    /// The guild's voice call was looked up: whether there is one.
    CallLookedUp(bool),
    /// The call's queue was read: whether a track is playing.
    CurrentChecked(bool),
    /// The skip was requested: whether it was accepted.
    SkipRequested(bool),
}

/// What `/skip` does next.
#[derive(Debug, Clone, PartialEq, Eq)]
pub enum SkipAction {
    /// Lock the call and check for a playing track.
    CheckCurrent,
    /// Ask the queue to skip the playing track.
    RequestSkip,
    /// Answer with this card; the command is done.
    Reply(Embed),
    /// The command fails with this error.
    Fail(BotError),
}

/// The next step of `/skip` after an event: no call means "not playing",
/// no playing track means "no track playing", a refused skip means "failed
/// to skip"; a successful skip is answered with the skipped card.
pub fn skip_step(event: SkipEvent) -> (action: SkipAction)
    ensures
        event == SkipEvent::CallLookedUp(false) ==> action == SkipAction::Fail(BotError::NotPlaying),
        event == SkipEvent::CallLookedUp(true) ==> action == SkipAction::CheckCurrent,
        event == SkipEvent::CurrentChecked(false) ==> action == SkipAction::Fail(
            BotError::NoTrackPlaying,
        ),
        event == SkipEvent::CurrentChecked(true) ==> action == SkipAction::RequestSkip,
        event == SkipEvent::SkipRequested(false) ==> action == SkipAction::Fail(BotError::SkipFailed),
        event == SkipEvent::SkipRequested(true) ==> (action matches SkipAction::Reply(e) && e.title
            is None && e.description@ == "Song has been skipped"@ && e.color == spec_brand_color()
            && e.author is None && e.thumbnail is None),
{
    match event {
        SkipEvent::CallLookedUp(found) => if found {
            SkipAction::CheckCurrent
        } else {
            SkipAction::Fail(BotError::NotPlaying)
        },
        SkipEvent::CurrentChecked(playing) => if playing {
            SkipAction::RequestSkip
        } else {
            SkipAction::Fail(BotError::NoTrackPlaying)
        },
        SkipEvent::SkipRequested(accepted) => if accepted {
            SkipAction::Reply(skipped_embed())
        } else {
            SkipAction::Fail(BotError::SkipFailed)
        },
    }
}

} // verus!
