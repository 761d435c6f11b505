//! Noticing that the bot has been left alone in a voice channel, and
//! routing a slash command to its handler.

use vstd::prelude::*;

use crate::text::same_text;

verus! {

/// The users in `channel`, given each user's voice state as (user, channel).
pub open spec fn members_of(states: Seq<(u64, Option<u64>)>, channel: u64) -> Seq<u64>
    decreases states.len(),
{
    if states.len() == 0 {
        Seq::empty()
    } else {
        let rest = members_of(states.drop_last(), channel);
        if states.last().1 == Some(channel) {
            rest.push(states.last().0)
        } else {
            rest
        }
    }
}

/// The server to reset when a voice state change leaves the bot alone: the
/// state names a channel and a server, and the bot is the only user in that
/// channel.
pub open spec fn spec_guild_if_alone(
    channel: Option<u64>,
    guild: Option<u64>,
    states: Seq<(u64, Option<u64>)>,
    bot: u64,
) -> Option<u64> {
    match (channel, guild) {
        (Some(c), Some(g)) => {
            let members = members_of(states, c);
            if members.len() == 1 && members[0] == bot {
                Some(g)
            } else {
                None
            }
        },
        _ => None,
    }
}

/// Given a voice state's channel and server and the voice states of that
/// server, the server if the bot is alone in the channel.
pub fn guild_id_if_alone(
    channel: Option<u64>,
    guild: Option<u64>,
    states: &Vec<(u64, Option<u64>)>,
    bot: u64,
) -> (r: Option<u64>)
    ensures
        r == spec_guild_if_alone(channel, guild, states@, bot),
{
    let c = match channel {
        Some(c) => c,
        None => return None,
    };
    let g = match guild {
        Some(g) => g,
        None => return None,
    };
    let n = states.len();
    let mut count: usize = 0;
    let mut first: u64 = 0;
    for i in 0..n
        invariant
            n == states@.len(),
            count as int == members_of(states@.take(i as int), c).len(),
            count <= i,
            count > 0 ==> first == members_of(states@.take(i as int), c)[0],
    {
        proof {
            assert(states@.take(i + 1).drop_last() =~= states@.take(i as int));
            assert(states@.take(i + 1).last() == states@[i as int]);
        }
        let (user, ch) = states[i];
        if ch == Some(c) {
            if count == 0 {
                first = user;
            }
            count = count + 1;
        }
    }
    assert(states@.take(n as int) =~= states@);
    if count == 1 && first == bot {
        Some(g)
    } else {
        None
    }
}

/// Whether the voice state at position `i` is in `channel`.
pub open spec fn in_channel(states: Seq<(u64, Option<u64>)>, channel: u64, i: int) -> bool {
    0 <= i < states.len() && states[i].1 == Some(channel)
}

proof fn lemma_members_empty(states: Seq<(u64, Option<u64>)>, channel: u64)
    ensures
        (members_of(states, channel).len() == 0) <==> (forall|i: int| !#[trigger] in_channel(states, channel, i)),
    decreases states.len(),
{
    if states.len() > 0 {
        let t = states.drop_last();
        lemma_members_empty(t, channel);
        if members_of(states, channel).len() == 0 {
            assert forall|i: int| !#[trigger] in_channel(states, channel, i) by {
                if 0 <= i < t.len() {
                    assert(!in_channel(t, channel, i));
                }
            }
        } else {
            if states.last().1 == Some(channel) {
                assert(in_channel(states, channel, states.len() - 1));
            } else {
                let k = choose|k: int| in_channel(t, channel, k);
                assert(in_channel(states, channel, k));
            }
        }
    }
}

proof fn lemma_members_single(states: Seq<(u64, Option<u64>)>, channel: u64, user: u64)
    ensures
        (members_of(states, channel).len() == 1 && members_of(states, channel)[0] == user) <==> (exists|i: int|
            #[trigger] in_channel(states, channel, i) && states[i].0 == user && forall|j: int|
                #[trigger] in_channel(states, channel, j) ==> j == i),
    decreases states.len(),
{
    if states.len() > 0 {
        let t = states.drop_last();
        let last = states.len() - 1;
        lemma_members_single(t, channel, user);
        lemma_members_empty(t, channel);
        assert forall|j: int| 0 <= j < t.len() implies (in_channel(states, channel, j) == in_channel(t, channel, j)) by {
            assert(states[j] == t[j]);
        }
        if states.last().1 == Some(channel) {
            if members_of(states, channel).len() == 1 && members_of(states, channel)[0] == user {
                assert(in_channel(states, channel, last));
                assert forall|j: int| #[trigger] in_channel(states, channel, j) implies j == last by {
                    if j < last {
                        assert(in_channel(t, channel, j));
                    }
                }
            }
            if exists|i: int|
                #[trigger] in_channel(states, channel, i) && states[i].0 == user && forall|j: int|
                    #[trigger] in_channel(states, channel, j) ==> j == i {
                let i = choose|i: int|
                    #[trigger] in_channel(states, channel, i) && states[i].0 == user && forall|j: int|
                        #[trigger] in_channel(states, channel, j) ==> j == i;
                assert(in_channel(states, channel, last));
                assert(i == last);
                assert forall|k: int| !#[trigger] in_channel(t, channel, k) by {
                    if in_channel(t, channel, k) {
                        assert(in_channel(states, channel, k));
                    }
                }
            }
        } else {
            assert(!in_channel(states, channel, last));
            if exists|i: int|
                #[trigger] in_channel(states, channel, i) && states[i].0 == user && forall|j: int|
                    #[trigger] in_channel(states, channel, j) ==> j == i {
                let i = choose|i: int|
                    #[trigger] in_channel(states, channel, i) && states[i].0 == user && forall|j: int|
                        #[trigger] in_channel(states, channel, j) ==> j == i;
                assert(in_channel(t, channel, i));
                assert(t[i] == states[i]);
                assert forall|j: int| #[trigger] in_channel(t, channel, j) implies j == i by {
                    assert(in_channel(states, channel, j));
                }
            }
            if members_of(states, channel).len() == 1 && members_of(states, channel)[0] == user {
                let i = choose|i: int|
                    #[trigger] in_channel(t, channel, i) && t[i].0 == user && forall|j: int|
                        #[trigger] in_channel(t, channel, j) ==> j == i;
                assert(in_channel(states, channel, i));
                assert forall|j: int| #[trigger] in_channel(states, channel, j) implies j == i by {
                    if j < last {
                        assert(in_channel(t, channel, j));
                    }
                }
            }
        }
    }
}

/// Whether the bot counts as alone does not depend on the order in which the
/// voice states are listed: it is alone exactly when one voice state is in
/// the channel and that state is the bot's.
pub proof fn lemma_alone_means_only_the_bot(
    channel: u64,
    guild: u64,
    states: Seq<(u64, Option<u64>)>,
    bot: u64,
)
    ensures
        (spec_guild_if_alone(Some(channel), Some(guild), states, bot) == Some(guild)) <==> (exists|i: int|
            #[trigger] in_channel(states, channel, i) && states[i].0 == bot && forall|j: int|
                #[trigger] in_channel(states, channel, j) ==> j == i),
{
    lemma_members_single(states, channel, bot);
}

/// A voice state as the bot sees it: its channel and server, and the voice
/// states (user, channel) of that server. The list is only read when the
/// state names both a channel and a server.
pub struct VoiceStateSeen {
    pub channel: Option<u64>,
    pub guild: Option<u64>,
    pub members: Vec<(u64, Option<u64>)>,
}

/// The server to reset for one voice state, if the bot is alone there.
pub open spec fn alone_in(v: VoiceStateSeen, bot: u64) -> Option<u64> {
    spec_guild_if_alone(v.channel, v.guild, v.members@, bot)
}

/// The server to reset after a voice state changed: the state before the
/// change is looked at first, and the new state only when the old one does
/// not leave the bot alone.
pub open spec fn spec_guild_to_reset(old: Option<VoiceStateSeen>, new: VoiceStateSeen, bot: u64) -> Option<u64> {
    match old {
        Some(o) => match alone_in(o, bot) {
            Some(g) => Some(g),
            None => alone_in(new, bot),
        },
        None => alone_in(new, bot),
    }
}

/// Decides which server, if any, to reset after a voice state changed from
/// `old` to `new`.
pub fn guild_to_reset(old: Option<&VoiceStateSeen>, new: &VoiceStateSeen, bot: u64) -> (r: Option<u64>)
    ensures
        r == spec_guild_to_reset(
            match old {
                Some(o) => Some(*o),
                None => None,
            },
            *new,
            bot,
        ),
{
    if let Some(o) = old {
        if let Some(g) = guild_id_if_alone(o.channel, o.guild, &o.members, bot) {
            return Some(g);
        }
    }
    guild_id_if_alone(new.channel, new.guild, &new.members, bot)
}

/// The slash commands.
#[derive(Debug, PartialEq, Eq, Structural)]
pub enum Command {
    Play,
    Pause,
    Resume,
    Skip,
    Stop,
    Remove,
    NowPlaying,
    Queue,
    Rps,
}

/// The command a name stands for.
pub open spec fn spec_command_for(name: Seq<char>) -> Option<Command> {
    if name == "play"@ {
        Some(Command::Play)
    } else if name == "pause"@ {
        Some(Command::Pause)
    } else if name == "resume"@ {
        Some(Command::Resume)
    } else if name == "skip"@ {
        Some(Command::Skip)
    } else if name == "stop"@ {
        Some(Command::Stop)
    } else if name == "remove"@ {
        Some(Command::Remove)
    } else if name == "np"@ {
        Some(Command::NowPlaying)
    } else if name == "queue"@ {
        Some(Command::Queue)
    } else if name == "rps"@ {
        Some(Command::Rps)
    } else {
        None
    }
}

/// Routes a slash command by its name; unknown names are ignored.
pub fn command_for(name: &str) -> (r: Option<Command>)
    ensures
        r == spec_command_for(name@),
{
    if same_text(name, "play") {
        Some(Command::Play)
    } else if same_text(name, "pause") {
        Some(Command::Pause)
    } else if same_text(name, "resume") {
        Some(Command::Resume)
    } else if same_text(name, "skip") {
        Some(Command::Skip)
    } else if same_text(name, "stop") {
        Some(Command::Stop)
    } else if same_text(name, "remove") {
        Some(Command::Remove)
    } else if same_text(name, "np") {
        Some(Command::NowPlaying)
    } else if same_text(name, "queue") {
        Some(Command::Queue)
    } else if same_text(name, "rps") {
        Some(Command::Rps)
    } else {
        None
    }
}

/// The name each command is registered under (see the `register`
/// function of each command).
pub open spec fn command_name(c: Command) -> Seq<char> {
    match c {
        Command::Play => "play"@,
        Command::Pause => "pause"@,
        Command::Resume => "resume"@,
        Command::Skip => "skip"@,
        Command::Stop => "stop"@,
        Command::Remove => "remove"@,
        Command::NowPlaying => "np"@,
        Command::Queue => "queue"@,
        Command::Rps => "rps"@,
    }
}

/// Every command is reached from the name it is registered under, and
/// from no other name: routing and registration agree one to one, so no
/// two names lead to the same handler.
pub proof fn lemma_commands_routed_by_their_names(c: Command, name: Seq<char>)
    ensures
        spec_command_for(command_name(c)) == Some(c),
        spec_command_for(name) == Some(c) ==> name == command_name(c),
{
    reveal_strlit("play");
    reveal_strlit("pause");
    reveal_strlit("resume");
    reveal_strlit("skip");
    reveal_strlit("stop");
    reveal_strlit("remove");
    reveal_strlit("np");
    reveal_strlit("queue");
    reveal_strlit("rps");
    assert("play"@.len() == 4 && "play"@[0] == 'p' && "play"@[1] == 'l');
    assert("pause"@.len() == 5 && "pause"@[0] == 'p' && "pause"@[1] == 'a');
    assert("resume"@.len() == 6 && "resume"@[0] == 'r' && "resume"@[1] == 'e');
    assert("skip"@.len() == 4 && "skip"@[0] == 's' && "skip"@[1] == 'k');
    assert("stop"@.len() == 4 && "stop"@[0] == 's' && "stop"@[1] == 't');
    assert("remove"@.len() == 6 && "remove"@[0] == 'r' && "remove"@[1] == 'e');
    assert("np"@.len() == 2 && "np"@[0] == 'n' && "np"@[1] == 'p');
    assert("queue"@.len() == 5 && "queue"@[0] == 'q' && "queue"@[1] == 'u');
    assert("rps"@.len() == 3 && "rps"@[0] == 'r' && "rps"@[1] == 'p');
    assert("resume"@[2] == 's' && "remove"@[2] == 'm');
}

/// Two different names never reach the same command.
pub proof fn lemma_routing_is_one_to_one(a: Seq<char>, b: Seq<char>)
    requires
        spec_command_for(a) is Some,
        spec_command_for(a) == spec_command_for(b),
    ensures
        a == b,
{
    lemma_commands_routed_by_their_names(spec_command_for(a)->0, a);
    lemma_commands_routed_by_their_names(spec_command_for(a)->0, b);
}

} // verus!
