//! `/resume`: resumes the current song.

use vstd::prelude::*;

use crate::voice::{command_name, Command};

use crate::commands::pause::PlaybackStep;
use crate::commands::spec::{make_plain_command, plain_command, CommandSpec};
use crate::respond::{Embed, create_embed_is_resumed, create_embed_not_playing, create_embed_resumed, create_embed_user_not_in_voice_channel, embed_is_resumed, embed_not_playing, embed_resumed, embed_user_not_in_voice_channel};
use crate::structs::ServerProps;

verus! {

/// The first step of `/resume`: a reply when the user is not in a voice
/// channel or no song is playing; else the track's play mode is needed.
pub fn run(in_voice: bool, props: &ServerProps) -> (r: PlaybackStep)
    ensures
        if !in_voice {
            r matches PlaybackStep::Reply(e) && e@ == embed_user_not_in_voice_channel()
        } else if !(props@.state is CurrentSong) {
            r matches PlaybackStep::Reply(e) && e@ == embed_not_playing()
        } else {
            r is CheckPlayMode
        },
{
    if !in_voice {
        return PlaybackStep::Reply(create_embed_user_not_in_voice_channel());
    }
    if props.audio_state().song().is_none() {
        return PlaybackStep::Reply(create_embed_not_playing());
    }
    PlaybackStep::CheckPlayMode
}

/// The second step of `/resume`, given whether the track is playing: whether
/// to make it play, and the reply.
pub fn on_play_mode(playing: bool) -> (r: (bool, Embed))
    ensures
        if playing {
            !r.0 && r.1@ == embed_is_resumed()
        } else {
            r.0 && r.1@ == embed_resumed()
        },
{
    if playing {
        (false, create_embed_is_resumed())
    } else {
        (true, create_embed_resumed())
    }
}

/// The `/resume` command.
pub fn register() -> (r: CommandSpec)
    ensures
        r@.name == command_name(Command::Resume),
        r@ == plain_command("resume"@, "Resume current song"@),
{
    make_plain_command("resume", "Resume current song")
}

} // verus!
