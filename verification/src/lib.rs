//! Core logic of the Acoustic music bot: the per-guild track queue, the
//! texts and embeds the bot answers with, query classification, playlist
//! output parsing and the decisions taken by the command and event handlers.

pub mod commands;
pub mod dotenv;
pub mod embeds;
pub mod errors;
pub mod handlers;
pub mod queue_store;
pub mod text;
