//! Notices when the bot is taken out of its voice channel.

use vstd::prelude::*;

use crate::queue_store::{self, QueueStore};

verus! {

/// Reacts to voice state changes of the bot itself.
pub struct VoiceHandler;

impl VoiceHandler {
    /// The guild a voice state change concerns, when it is a change of the
    /// bot's own state in a guild; `None` for other users and for changes
    /// outside a guild.
    pub fn own_update_guild(&self, bot_id: u64, user_id: u64, guild_id: Option<u64>) -> (g: Option<
        u64,
    >)
        ensures
            g == if user_id == bot_id {
                guild_id
            } else {
                None
            },
    {
        if user_id != bot_id {
            return None;
        }
        guild_id
    }

    /// Whether the bot's call in a guild must be torn down: the bot is no
    /// longer in a voice channel there, but a call is still registered.
    pub fn must_release(&self, channel_id: Option<u64>, has_call: bool) -> (r: bool)
        ensures
            r == (channel_id is None && has_call),
    {
        channel_id.is_none() && has_call
    }

    /// Forgets the queue of a guild whose call was torn down.
    pub fn release(&self, store: &mut QueueStore, guild_id: u64)
        ensures
            final(store)@ == old(store)@.remove(guild_id),
    {
        queue_store::remove(store, guild_id);
    }
}

} // verus!
