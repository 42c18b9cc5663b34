//! The slash commands: their definitions and the checks they share.

use vstd::prelude::*;

use crate::errors::BotError;

pub mod clear_queue;
pub mod play;
pub mod playlist;
pub mod queue;
pub mod skip;

verus! {

/// A required or optional string argument of a slash command.
#[derive(Debug, Clone, PartialEq, Eq)]
pub struct StringOptionDef {
    pub name: String,
    pub description: String,
    pub required: bool,
}

/// A slash command as it is registered: name, description and arguments.
#[derive(Debug, Clone, PartialEq, Eq)]
pub struct CommandDef {
    pub name: String,
    pub description: String,
    pub options: Vec<StringOptionDef>,
}

/// The guild and the voice channel a command works on. The user must be in
/// a server and, there, in a voice channel; `voice_channel` is the channel
/// the user's voice state names (looked up only when there is a guild).
pub fn check_user_channel(guild_id: Option<u64>, voice_channel: Option<u64>) -> (r: Result<
    (u64, u64),
    BotError,
>)
    ensures
        match guild_id {
            None => r == Err::<(u64, u64), BotError>(BotError::NotInGuild),
            Some(g) => match voice_channel {
                None => r == Err::<(u64, u64), BotError>(BotError::NotInVoiceChannel),
                Some(c) => r == Ok::<(u64, u64), BotError>((g, c)),
            },
        },
{
    match guild_id {
        None => Err(BotError::NotInGuild),
        Some(g) => match voice_channel {
            None => Err(BotError::NotInVoiceChannel),
            Some(c) => Ok((g, c)),
        },
    }
}

/// Whether a voice call's queue has nothing left: no track waiting and none
/// playing.
pub fn queue_is_idle(queue_empty: bool, has_current: bool) -> (idle: bool)
    ensures
        idle == (queue_empty && !has_current),
{
    queue_empty && !has_current
}

} // verus!
