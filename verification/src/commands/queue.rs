//! `/queue`: shows how many songs wait in each queue.

use vstd::prelude::*;

use crate::voice::{command_name, Command};

use crate::commands::spec::{make_plain_command, plain_command, CommandSpec};
use crate::respond::{Embed, create_embed_not_playing, create_embed_queue_stats, create_embed_user_not_in_voice_channel, embed_not_playing, embed_queue_stats, embed_user_not_in_voice_channel};
use crate::structs::ServerProps;
use crate::text::{decimal, decimal_string};

verus! {

/// The reply to `/queue`.
pub fn run(in_voice: bool, props: &ServerProps) -> (r: Embed)
    ensures
        r@ == if !in_voice {
            embed_user_not_in_voice_channel()
        } else if props@.state is Idle {
            embed_not_playing()
        } else {
            embed_queue_stats(decimal(props@.requests.len()), decimal(props@.playlist.len()))
        },
{
    if !in_voice {
        return create_embed_user_not_in_voice_channel();
    }
    if props.audio_state().is_idle() {
        return create_embed_not_playing();
    }
    let req_q = decimal_string(props.request_queue().len() as u64);
    let play_q = decimal_string(props.playlist_queue().len() as u64);
    create_embed_queue_stats(req_q, play_q)
}

/// The `/queue` command.
pub fn register() -> (r: CommandSpec)
    ensures
        r@.name == command_name(Command::Queue),
        r@ == plain_command("queue"@, "Shows the queue counters"@),
{
    make_plain_command("queue", "Shows the queue counters")
}

} // verus!
