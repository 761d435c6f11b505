//! `/np`: shows the song that is playing.

use vstd::prelude::*;

use crate::voice::{command_name, Command};

use crate::commands::spec::{make_plain_command, plain_command, CommandSpec};
use crate::respond::{Embed, create_embed_not_playing, create_embed_now_playing, create_embed_user_not_in_voice_channel, embed_not_playing, embed_now_playing, embed_user_not_in_voice_channel};
use crate::structs::{AudioHandlerState, ServerProps};

verus! {

/// The reply to `/np` from a user who is (`in_voice`) or is not in a voice
/// channel of the server.
pub fn run(in_voice: bool, props: &ServerProps) -> (r: Embed)
    ensures
        r@ == if !in_voice {
            embed_user_not_in_voice_channel()
        } else {
            match props@.state {
                AudioHandlerState::CurrentSong { song } => embed_now_playing(song),
                _ => embed_not_playing(),
            }
        },
{
    if !in_voice {
        return create_embed_user_not_in_voice_channel();
    }
    let state = props.audio_state();
    match state.song() {
        Some(song) => create_embed_now_playing(&song),
        None => create_embed_not_playing(),
    }
}

/// The `/np` command.
pub fn register() -> (r: CommandSpec)
    ensures
        r@.name == command_name(Command::NowPlaying),
        r@ == plain_command("np"@, "Shows the song currently playing"@),
{
    make_plain_command("np", "Shows the song currently playing")
}

} // verus!
