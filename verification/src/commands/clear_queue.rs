//! `/clearqueue`: drops every queued track but the one playing.

use vstd::prelude::*;

use crate::commands::{CommandDef, StringOptionDef};
use crate::embeds::{notice, spec_brand_color, Embed};
use crate::errors::BotError;
use crate::queue_store::{self, kept_first, QueueStore};

verus! {

/// The definition of `/clearqueue` (its description is the one `/skip` has).
pub fn create() -> (c: CommandDef)
    ensures
        c.name@ == "clearqueue"@,
        c.description@ == "skip to the next song in the queue"@,
        c.options@.len() == 0,
{
    let options: Vec<StringOptionDef> = Vec::new();
    CommandDef {
        name: String::from_str("clearqueue"),
        description: String::from_str("skip to the next song in the queue"),
        options,
    }
}

/// The next position to take out of a call's queue that holds `len`
/// tracks: the last one, as long as more than the playing track (position
/// 0) is left; `None` once nothing but that track remains.
pub fn next_to_clear(len: usize) -> (next: Option<usize>)
    ensures
        len > 1 ==> next == Some((len - 1) as usize),
        len <= 1 ==> next is None,
{
    if len > 1 {
        Some(len - 1)
    } else {
        None
    }
}

/// The card `/clearqueue` answers with.
pub fn cleared_embed() -> (e: Embed)
    ensures
        e.title is None,
        e.description@ == "Queue has been cleared"@,
        e.color == spec_brand_color(),
        e.author is None,
        e.thumbnail is None,
{
    notice("Queue has been cleared")
}


/// What the outside steps of `/clearqueue` report, in the order they happen.
#[derive(Debug, Clone, Copy, PartialEq, Eq)]
pub enum ClearEvent {
    /// The guild's voice call was looked up: whether there is one.
    CallLookedUp(bool),
    /// The call's queue was read: how many tracks it holds now.
    QueueLength(usize),
}

/// What `/clearqueue` does next.
#[derive(Debug, Clone, PartialEq, Eq)]
pub enum ClearAction {
    /// Lock the call and read its queue's length.
    ReadLength,
    /// Take the track at this position out of the queue and stop it, then
    /// read the length again.
    Dequeue(usize),
    /// Only the playing track is left: cut the recorded queue down to it
    /// and answer (see `finish_clear`).
    Finish,
    /// The command fails with this error.
    Fail(BotError),
}

/// The next step of `/clearqueue` after an event: no call means "not
/// playing"; otherwise tracks are taken from the back until only the playing
/// one is left.
pub fn clear_step(event: ClearEvent) -> (action: ClearAction)
    ensures
        event == ClearEvent::CallLookedUp(false) ==> action == ClearAction::Fail(BotError::NotPlaying),
        event == ClearEvent::CallLookedUp(true) ==> action == ClearAction::ReadLength,
        event matches ClearEvent::QueueLength(len) ==> action == if len > 1 {
            ClearAction::Dequeue((len - 1) as usize)
        } else {
            ClearAction::Finish
        },
{
    match event {
        ClearEvent::CallLookedUp(found) => if found {
            ClearAction::ReadLength
        } else {
            ClearAction::Fail(BotError::NotPlaying)
        },
        ClearEvent::QueueLength(len) => match next_to_clear(len) {
            Some(position) => ClearAction::Dequeue(position),
            None => ClearAction::Finish,
        },
    }
}

/// Ends `/clearqueue`: the guild's recorded queue keeps only its front
/// track, and the cleared card is the answer.
pub fn finish_clear(store: &mut QueueStore, guild_id: u64) -> (e: Embed)
    ensures
        final(store)@ == kept_first(old(store)@, guild_id),
        e.title is None,
        e.description@ == "Queue has been cleared"@,
        e.color == spec_brand_color(),
        e.author is None,
        e.thumbnail is None,
{
    queue_store::keep_first(store, guild_id);
    cleared_embed()
}

} // verus!
