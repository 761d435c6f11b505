//! `/rps`: rock, paper, scissors against the bot, with a running score that
//! is kept as two numbers, "bot user", in a small text file.

use rand::Rng;

use vstd::prelude::*;

use crate::voice::{command_name, Command};

use crate::commands::spec::{CommandOption, CommandOptionView, CommandSpec, CommandSpecView};
use crate::text::{
    chars_of, decimal, decimal_string, lemma_parse_decimal, lemma_words_of_two_numerals, parse_u32,
    push_str, spec_parse_u32, split_whitespace, views_of, words,
};

verus! {

/// Whether move `a` beats move `b`.
pub open spec fn beats(a: Seq<char>, b: Seq<char>) -> bool {
    (a == "Rock"@ && b == "Scissors"@) || (a == "Scissors"@ && b == "Paper"@) || (a == "Paper"@ && b == "Rock"@)
}

/// Who won a round.
#[derive(Debug, PartialEq, Eq, Structural)]
pub enum RpsWinner {
    Bot,
    User,
    Tie,
}

/// The outcome of a round: the new scores and the winner.
#[derive(Debug)]
pub struct RpsRound {
    pub bot_score: u32,
    pub usr_score: u32,
    pub winner: RpsWinner,
}

impl RpsWinner {
    /// The title of the reply.
    pub fn message(&self) -> (r: &'static str)
        ensures
            r@ == match self {
                RpsWinner::Bot => "I won!"@,
                RpsWinner::User => "You won!"@,
                RpsWinner::Tie => "We tied!"@,
            },
    {
        match self {
            RpsWinner::Bot => "I won!",
            RpsWinner::User => "You won!",
            RpsWinner::Tie => "We tied!",
        }
    }
}

/// Calls rand's `Rng::random_range(0..=hi)` on the thread-local generator.
/// Claimed: the result lies in `0..=hi`; which one is left to chance.
#[verifier::external_body]
fn random_index_upto(hi: usize) -> (r: usize)
    ensures
        r <= hi,
{
    rand::rng().random_range(0..=hi)
}

/// The move with number `i`: 0 is Rock, 1 is Paper, 2 is Scissors.
pub open spec fn spec_move_of(i: int) -> Seq<char> {
    if i == 0 {
        "Rock"@
    } else if i == 1 {
        "Paper"@
    } else {
        "Scissors"@
    }
}

/// The move with number `i`.
pub fn move_of(i: usize) -> (r: &'static str)
    requires
        i <= 2,
    ensures
        r@ == spec_move_of(i as int),
{
    if i == 0 {
        "Rock"
    } else if i == 1 {
        "Paper"
    } else {
        "Scissors"
    }
}

/// The bot's move: the move of a number drawn at random from 0 to 2.
pub fn bot_choice() -> (r: &'static str)
    ensures
        exists|i: int| 0 <= i <= 2 && r@ == #[trigger] spec_move_of(i),
{
    let i = random_index_upto(2);
    move_of(i)
}

/// Who wins when the bot plays `bot_choice` and the user `usr_choice`. A
/// move that is not one of the three, and equal moves, make a tie.
pub fn round_winner(bot_choice: &str, usr_choice: &str) -> (r: RpsWinner)
    ensures
        r == if beats(bot_choice@, usr_choice@) {
            RpsWinner::Bot
        } else if beats(usr_choice@, bot_choice@) {
            RpsWinner::User
        } else {
            RpsWinner::Tie
        },
{
    let b = bot_choice;
    let u = usr_choice;
    let rock = "Rock";
    let paper = "Paper";
    let scissors = "Scissors";
    if (same(b, rock) && same(u, scissors)) || (same(b, scissors) && same(u, paper)) || (same(b, paper) && same(
        u,
        rock,
    )) {
        RpsWinner::Bot
    } else if (same(u, rock) && same(b, scissors)) || (same(u, scissors) && same(b, paper)) || (same(u, paper)
        && same(b, rock)) {
        RpsWinner::User
    } else {
        RpsWinner::Tie
    }
}

/// Plays one round: the winner's score goes up by one.
pub fn play_round(bot_choice: &str, usr_choice: &str, bot_score: u32, usr_score: u32) -> (r: RpsRound)
    requires
        beats(bot_choice@, usr_choice@) ==> bot_score < u32::MAX,
        beats(usr_choice@, bot_choice@) ==> usr_score < u32::MAX,
    ensures
        if beats(bot_choice@, usr_choice@) {
            r.winner == RpsWinner::Bot && r.bot_score == bot_score + 1 && r.usr_score == usr_score
        } else if beats(usr_choice@, bot_choice@) {
            r.winner == RpsWinner::User && r.bot_score == bot_score && r.usr_score == usr_score + 1
        } else {
            r.winner == RpsWinner::Tie && r.bot_score == bot_score && r.usr_score == usr_score
        },
{
    match round_winner(bot_choice, usr_choice) {
        RpsWinner::Bot => RpsRound { bot_score: bot_score + 1, usr_score, winner: RpsWinner::Bot },
        RpsWinner::User => RpsRound { bot_score, usr_score: usr_score + 1, winner: RpsWinner::User },
        RpsWinner::Tie => RpsRound { bot_score, usr_score, winner: RpsWinner::Tie },
    }
}

fn same(a: &str, b: &str) -> (r: bool)
    ensures
        r == (a@ == b@),
{
    crate::text::same_text(a, b)
}

/// The scores a history text holds: its first two words, read as numbers.
pub open spec fn spec_rps_scores(text: Seq<char>) -> Option<(u32, u32)> {
    let w = words(text);
    if w.len() >= 2 {
        match (spec_parse_u32(w[0]), spec_parse_u32(w[1])) {
            (Some(a), Some(b)) => Some((a, b)),
            _ => None,
        }
    } else {
        None
    }
}

/// Reads the scores, bot first, from a history text. `None` when the text
/// does not start with two numbers.
pub fn parse_rps_history(text: &str) -> (r: Option<(u32, u32)>)
    ensures
        r == spec_rps_scores(text@),
{
    let cs = chars_of(text);
    let w = split_whitespace(&cs);
    if w.len() < 2 {
        return None;
    }
    assert(views_of(w@)[0] == w@[0]@);
    assert(views_of(w@)[1] == w@[1]@);
    match (parse_u32(&w[0]), parse_u32(&w[1])) {
        (Some(a), Some(b)) => Some((a, b)),
        _ => None,
    }
}

/// The history text for the given scores: "bot user".
pub fn rps_history_text(bot_score: u32, usr_score: u32) -> (r: String)
    ensures
        r@ == decimal(bot_score as nat) + " "@ + decimal(usr_score as nat),
{
    let mut s = decimal_string(bot_score as u64);
    push_str(&mut s, " ");
    push_str(&mut s, decimal_string(usr_score as u64).as_str());
    s
}

/// The scores written to the history are the scores read back from it.
pub proof fn lemma_rps_history_round_trip(bot_score: u32, usr_score: u32)
    ensures
        spec_rps_scores(decimal(bot_score as nat) + " "@ + decimal(usr_score as nat)) == Some((bot_score, usr_score)),
{
    lemma_words_of_two_numerals(bot_score as nat, usr_score as nat);
    lemma_parse_decimal(bot_score);
    lemma_parse_decimal(usr_score);
}

/// The `/rps` command, which takes the user's move.
pub fn register() -> (r: CommandSpec)
    ensures
        r@.name == command_name(Command::Rps),
        r@ == (CommandSpecView {
            name: "rps"@,
            description: "Rock, Paper, Scissors!"@,
            options: seq![CommandOptionView {
                name: "choice"@,
                description: "Your choice"@,
                required: true,
                choices: seq!["Rock"@, "Paper"@, "Scissors"@],
            }],
        }),
{
    let mut choices: Vec<String> = Vec::new();
    choices.push("Rock".to_owned());
    choices.push("Paper".to_owned());
    choices.push("Scissors".to_owned());
    let ghost cv = choices@.map_values(|c: String| c@);
    assert(cv =~= seq!["Rock"@, "Paper"@, "Scissors"@]);
    let opt = CommandOption {
        name: "choice".to_owned(),
        description: "Your choice".to_owned(),
        required: true,
        choices,
    };
    let ghost ov = opt@;
    let mut options: Vec<CommandOption> = Vec::new();
    options.push(opt);
    let r = CommandSpec { name: "rps".to_owned(), description: "Rock, Paper, Scissors!".to_owned(), options };
    assert(r@.options =~= seq![ov]);
    r
}

} // verus!
