//! `/pause`: pauses the current song.

use vstd::prelude::*;

use crate::voice::{command_name, Command};

use crate::commands::spec::{make_plain_command, plain_command, CommandSpec};
use crate::respond::{Embed, create_embed_is_paused, create_embed_not_playing, create_embed_paused, create_embed_user_not_in_voice_channel, embed_is_paused, embed_not_playing, embed_paused, embed_user_not_in_voice_channel};
use crate::structs::ServerProps;

verus! {

/// What `/pause` and `/resume` do first.
#[derive(Debug)]
pub enum PlaybackStep {
    /// Answer with this and do nothing else.
    Reply(Embed),
    /// Find out whether the current track is paused, then decide.
    CheckPlayMode,
}

/// The first step of `/pause`: a reply when the user is not in a voice
/// channel or no song is playing; else the track's play mode is needed.
pub fn run(in_voice: bool, props: &ServerProps) -> (r: PlaybackStep)
    ensures
        if !in_voice {
            r matches PlaybackStep::Reply(e) && e@ == embed_user_not_in_voice_channel()
        } else if !(props@.state is CurrentSong) {
            r matches PlaybackStep::Reply(e) && e@ == embed_not_playing()
        } else {
            r is CheckPlayMode
        },
{
    if !in_voice {
        return PlaybackStep::Reply(create_embed_user_not_in_voice_channel());
    }
    if props.audio_state().song().is_none() {
        return PlaybackStep::Reply(create_embed_not_playing());
    }
    PlaybackStep::CheckPlayMode
}

/// The second step of `/pause`, given whether the track is paused: whether
/// to pause it, and the reply.
pub fn on_play_mode(paused: bool) -> (r: (bool, Embed))
    ensures
        if paused {
            !r.0 && r.1@ == embed_is_paused()
        } else {
            r.0 && r.1@ == embed_paused()
        },
{
    if paused {
        (false, create_embed_is_paused())
    } else {
        (true, create_embed_paused())
    }
}

/// The `/pause` command.
pub fn register() -> (r: CommandSpec)
    ensures
        r@.name == command_name(Command::Pause),
        r@ == plain_command("pause"@, "Pauses current song"@),
{
    make_plain_command("pause", "Pauses current song")
}

} // verus!
