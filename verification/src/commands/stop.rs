//! `/stop`: stops playback, empties the queues and leaves the voice channel.

use vstd::prelude::*;

use crate::voice::{command_name, Command};

use crate::commands::spec::{make_plain_command, plain_command, CommandSpec};
use crate::respond::{Embed, create_embed_stopped, create_embed_stopped_failed, embed_stopped, embed_stopped_failed};

verus! {

/// The reply to `/stop`, given whether the reset changed nothing.
pub fn run(unchanged: bool) -> (r: Embed)
    ensures
        r@ == if unchanged {
            embed_stopped_failed()
        } else {
            embed_stopped()
        },
{
    if unchanged {
        create_embed_stopped_failed()
    } else {
        create_embed_stopped()
    }
}

/// The `/stop` command.
pub fn register() -> (r: CommandSpec)
    ensures
        r@.name == command_name(Command::Stop),
        r@ == plain_command("stop"@, "Stops current song, deletes queues, leaves voice channel"@),
{
    make_plain_command("stop", "Stops current song, deletes queues, leaves voice channel")
}

} // verus!
