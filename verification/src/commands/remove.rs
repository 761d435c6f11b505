//! `/remove`: withdraws the most recent single request.

use vstd::prelude::*;

use crate::voice::{command_name, Command};

use crate::commands::spec::{make_plain_command, plain_command, CommandSpec};
use crate::respond::{Embed, create_embed_not_playing, create_embed_removed_last_song, create_embed_removed_last_song_failed, create_embed_user_not_in_voice_channel, embed_not_playing, embed_removed_last_song, embed_removed_last_song_failed, embed_user_not_in_voice_channel};
use crate::structs::{ServerProps, ServerPropsView};

verus! {

/// The reply to `/remove`; withdraws the last single request when something
/// is playing and there is one.
pub fn run(in_voice: bool, props: &mut ServerProps) -> (r: Embed)
    ensures
        if !in_voice {
            r@ == embed_user_not_in_voice_channel() && final(props)@ == old(props)@
        } else if old(props)@.state is Idle {
            r@ == embed_not_playing() && final(props)@ == old(props)@
        } else if old(props)@.requests.len() == 0 {
            r@ == embed_removed_last_song_failed() && final(props)@ == old(props)@
        } else {
            r@ == embed_removed_last_song() && final(props)@ == old(props)@.remove_last_request().1
        },
{
    if !in_voice {
        return create_embed_user_not_in_voice_channel();
    }
    if props.audio_state().is_idle() {
        return create_embed_not_playing();
    }
    match props.remove_last_request() {
        Some(_) => create_embed_removed_last_song(),
        None => create_embed_removed_last_song_failed(),
    }
}

/// The `/remove` command.
pub fn register() -> (r: CommandSpec)
    ensures
        r@.name == command_name(Command::Remove),
        r@ == plain_command("remove"@, "Removes the single last requested song"@),
{
    make_plain_command("remove", "Removes the single last requested song")
}

} // verus!
