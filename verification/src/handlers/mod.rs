//! The decisions taken on Discord and voice events.

pub mod command_handler;
pub mod track_end_handler;
pub mod voice_handler;
