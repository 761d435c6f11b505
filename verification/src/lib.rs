//! Request handling, queueing and reply logic of a Discord music bot.

pub mod audio_handler;
pub mod commands;
pub mod guilds;
pub mod identify_source;
pub mod json;
pub mod respond;
pub mod spotify;
pub mod structs;
pub mod text;
pub mod voice;
pub mod youtube;
