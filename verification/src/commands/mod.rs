//! The slash commands: what each one is called and takes, and what it
//! decides and answers.

pub mod now_playing;
pub mod pause;
pub mod play;
pub mod queue;
pub mod remove;
pub mod resume;
pub mod rps;
pub mod skip;
pub mod spec;
pub mod stop;
