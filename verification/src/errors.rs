//! The failures a command can end in, and the text the user is shown for each.

use vstd::prelude::*;

verus! {

/// Why a command could not be carried out.
#[derive(Debug, Clone, PartialEq, Eq)]
pub enum BotError {
    /// The command was used outside a server.
    NotInGuild,
    /// The user is not in a voice channel.
    NotInVoiceChannel,
    /// `/play` came without a query.
    MissingQuery,
    /// `/play`'s query was not a string.
    InvalidQueryType,
    /// Joining the voice channel failed.
    ChannelUnavailable,
    /// No metadata could be found for the requested song.
    SongNotFound,
    /// The bot is in no voice channel of this server.
    NotPlaying,
    /// Nothing is playing right now.
    NoTrackPlaying,
    /// The skip request was refused.
    SkipFailed,
    /// `yt-dlp` could not be started.
    YtDlpUnavailable,
    /// `yt-dlp` ran and failed; holds what it wrote to its error output.
    PlaylistFetchFailed(String),
    /// `yt-dlp` printed bytes that are not UTF-8; holds the decoder's message.
    InvalidUtf8(String),
    /// A line of `yt-dlp` output was not JSON.
    MalformedPlaylistLine,
    /// A playlist entry carried no video id.
    MissingVideoId,
    /// The playlist held no entries.
    EmptyPlaylist,
    /// Another failure, with the message its source gave.
    Source(String),
}

impl BotError {
    /// The text shown to the user for this error.
    pub open spec fn spec_message(&self) -> Seq<char> {
        match self {
            BotError::NotInGuild => "You need to be on a server to use this command!"@,
            BotError::NotInVoiceChannel => "You need to be connected to a voice channel to use this command!"@,
            BotError::MissingQuery => "You need to provide a query!"@,
            BotError::InvalidQueryType => "Invalid query type!"@,
            BotError::ChannelUnavailable => "Could not get channel info!"@,
            BotError::SongNotFound => "Song not found!"@,
            BotError::NotPlaying => "I'm currently not playing in any voice channel!"@,
            BotError::NoTrackPlaying => "No track playing!"@,
            BotError::SkipFailed => "Failed to skip song!"@,
            BotError::YtDlpUnavailable => "Failed to run yt-dlp — is it installed?"@,
            BotError::PlaylistFetchFailed(stderr) => "yt-dlp failed to fetch playlist: "@ + stderr@,
            BotError::InvalidUtf8(m) => m@,
            BotError::MalformedPlaylistLine => "Failed to parse yt-dlp output"@,
            BotError::MissingVideoId => "Video missing id in yt-dlp output"@,
            BotError::EmptyPlaylist => "No videos found in playlist"@,
            BotError::Source(m) => m@,
        }
    }

    /// The text shown to the user for this error.
    pub fn message(&self) -> (m: String)
        ensures
            m@ == self.spec_message(),
    {
        match self {
            BotError::NotInGuild => String::from_str("You need to be on a server to use this command!"),
            BotError::NotInVoiceChannel => String::from_str(
                "You need to be connected to a voice channel to use this command!",
            ),
            BotError::MissingQuery => String::from_str("You need to provide a query!"),
            BotError::InvalidQueryType => String::from_str("Invalid query type!"),
            BotError::ChannelUnavailable => String::from_str("Could not get channel info!"),
            BotError::SongNotFound => String::from_str("Song not found!"),
            BotError::NotPlaying => String::from_str("I'm currently not playing in any voice channel!"),
            BotError::NoTrackPlaying => String::from_str("No track playing!"),
            BotError::SkipFailed => String::from_str("Failed to skip song!"),
            BotError::YtDlpUnavailable => String::from_str("Failed to run yt-dlp — is it installed?"),
            BotError::PlaylistFetchFailed(stderr) => {
                let mut m = String::from_str("yt-dlp failed to fetch playlist: ");
                m.append(stderr.as_str());
                m
            },
            BotError::InvalidUtf8(m) => m.clone(),
            BotError::MalformedPlaylistLine => String::from_str("Failed to parse yt-dlp output"),
            BotError::MissingVideoId => String::from_str("Video missing id in yt-dlp output"),
            BotError::EmptyPlaylist => String::from_str("No videos found in playlist"),
            BotError::Source(m) => m.clone(),
        }
    }
}

} // verus!
