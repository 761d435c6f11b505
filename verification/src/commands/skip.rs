//! `/skip`: stops the current song so that the next one starts.

use vstd::prelude::*;

use crate::voice::{command_name, Command};

use crate::commands::spec::{make_plain_command, plain_command, CommandSpec};
use crate::respond::{Embed, create_embed_not_playing, create_embed_skipped, create_embed_skipped_failed, create_embed_user_not_in_voice_channel, embed_not_playing, embed_skipped, embed_skipped_failed, embed_user_not_in_voice_channel};
use crate::structs::ServerProps;

verus! {

/// The reply to `/skip`, and whether the current track is to be stopped
/// (which makes the next song start).
pub fn run(in_voice: bool, props: &ServerProps) -> (r: (bool, Embed))
    ensures
        if !in_voice {
            !r.0 && r.1@ == embed_user_not_in_voice_channel()
        } else if !(props@.state is CurrentSong) {
            !r.0 && r.1@ == embed_not_playing()
        } else if props@.requests.len() == 0 && props@.playlist.len() == 0 {
            !r.0 && r.1@ == embed_skipped_failed()
        } else {
            r.0 && r.1@ == embed_skipped()
        },
{
    if !in_voice {
        return (false, create_embed_user_not_in_voice_channel());
    }
    if props.audio_state().song().is_none() {
        return (false, create_embed_not_playing());
    }
    if props.playlist_queue().len() == 0 && props.request_queue().len() == 0 {
        return (false, create_embed_skipped_failed());
    }
    (true, create_embed_skipped())
}

/// The `/skip` command.
pub fn register() -> (r: CommandSpec)
    ensures
        r@.name == command_name(Command::Skip),
        r@ == plain_command("skip"@, "Skips current song"@),
{
    make_plain_command("skip", "Skips current song")
}

} // verus!
