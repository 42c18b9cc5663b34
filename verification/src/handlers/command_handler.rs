//! Registers the slash commands and routes each command use to its command.

use vstd::prelude::*;

use crate::commands::{clear_queue, play, queue, skip, CommandDef};
use crate::embeds::{error_color, spec_error_color, Embed};
use crate::errors::BotError;
use crate::text::chars_of;

verus! {

/// Routes command uses and reports their failures.
pub struct CommandHandler;

/// The commands the bot offers.
#[derive(Debug, Clone, Copy, PartialEq, Eq)]
pub enum CommandKind {
    Play,
    Queue,
    Skip,
    ClearQueue,
}

/// The command a registered name stands for.
pub open spec fn command_named(name: Seq<char>) -> Option<CommandKind> {
    if name == "play"@ {
        Some(CommandKind::Play)
    } else if name == "queue"@ {
        Some(CommandKind::Queue)
    } else if name == "skip"@ {
        Some(CommandKind::Skip)
    } else if name == "clearqueue"@ {
        Some(CommandKind::ClearQueue)
    } else {
        None
    }
}

fn same_chars(a: &Vec<char>, b: &Vec<char>) -> (r: bool)
    ensures
        r == (a@ == b@),
{
    if a.len() != b.len() {
        return false;
    }
    let mut i: usize = 0;
    while i < a.len()
        invariant
            i <= a.len(),
            a.len() == b.len(),
            forall|k: int| 0 <= k < i ==> a@[k] == b@[k],
        decreases a.len() - i,
    {
        if a[i] != b[i] {
            return false;
        }
        i += 1;
    }
    assert(a@ =~= b@);
    true
}

fn is_named(name: &Vec<char>, candidate: &str) -> (r: bool)
    ensures
        r == (name@ == candidate@),
{
    let c = chars_of(candidate);
    same_chars(name, &c)
}

impl CommandHandler {
    /// The commands to register, in order: play, queue, skip, clearqueue.
    pub fn command_definitions(&self) -> (defs: Vec<CommandDef>)
        ensures
            defs@.len() == 4,
            defs@[0].name@ == "play"@,
            defs@[0].description@ == "play some music! supports youtube urls, search, and playlists"@,
            defs@[0].options@.len() == 1,
            defs@[0].options@[0].name@ == "query"@,
            defs@[0].options@[0].description@ == "youtube url, search query, or playlist url"@,
            defs@[0].options@[0].required,
            defs@[1].name@ == "queue"@,
            defs@[1].description@ == "display the current song queue"@,
            defs@[1].options@.len() == 0,
            defs@[2].name@ == "skip"@,
            defs@[2].description@ == "skip to the next song in the queue"@,
            defs@[2].options@.len() == 0,
            defs@[3].name@ == "clearqueue"@,
            defs@[3].description@ == "skip to the next song in the queue"@,
            defs@[3].options@.len() == 0,
    {
        let mut defs: Vec<CommandDef> = Vec::new();
        defs.push(play::create());
        defs.push(queue::create());
        defs.push(skip::create());
        defs.push(clear_queue::create());
        defs
    }

    /// The command a name stands for, if any.
    pub fn command_kind(&self, name: &str) -> (k: Option<CommandKind>)
        ensures
            k == command_named(name@),
    {
        let n = chars_of(name);
        if is_named(&n, "play") {
            Some(CommandKind::Play)
        } else if is_named(&n, "queue") {
            Some(CommandKind::Queue)
        } else if is_named(&n, "skip") {
            Some(CommandKind::Skip)
        } else if is_named(&n, "clearqueue") {
            Some(CommandKind::ClearQueue)
        } else {
            None
        }
    }

    /// The command to run for a command use. Only the registered names reach
    /// the bot; any other name is a fault of the caller.
    pub fn handle_command(&self, name: &str) -> (k: CommandKind)
        requires
            command_named(name@) is Some,
        ensures
            command_named(name@) == Some(k),
    {
        match self.command_kind(name) {
            Some(k) => k,
            None => CommandKind::Play,
        }
    }

    /// The card shown when a command fails: titled `ERROR`, in red, with the
    /// error's message.
    pub fn error_embed(&self, err: &BotError) -> (e: Embed)
        ensures
            e.title matches Some(t) && t@ == "ERROR"@,
            e.description@ == err.spec_message(),
            e.color == spec_error_color(),
            e.author is None,
            e.thumbnail is None,
    {
        Embed {
            title: Some(String::from_str("ERROR")),
            description: err.message(),
            color: error_color(),
            author: None,
            thumbnail: None,
        }
    }
}

} // verus!
