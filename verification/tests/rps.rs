use piebot::commands::rps::{bot_choice, parse_rps_history, play_round, rps_history_text, RpsWinner};
use piebot::voice::{command_for, guild_id_if_alone, guild_to_reset, Command, VoiceStateSeen};

#[test]
fn rps_rounds() {
    let r = play_round("Rock", "Scissors", 3, 4);
    assert_eq!((r.bot_score, r.usr_score, r.winner.message()), (4, 4, "I won!"));
    let r = play_round("Rock", "Paper", 3, 4);
    assert_eq!((r.bot_score, r.usr_score, r.winner.message()), (3, 5, "You won!"));
    let r = play_round("Paper", "Paper", 3, 4);
    assert_eq!((r.bot_score, r.usr_score), (3, 4));
    assert!(r.winner == RpsWinner::Tie);
    assert_eq!(r.winner.message(), "We tied!");
    let r = play_round("Scissors", "Lizard", 0, 0);
    assert!(r.winner == RpsWinner::Tie);
}

#[test]
fn bot_plays_a_valid_move() {
    for _ in 0..100 {
        assert!(["Rock", "Paper", "Scissors"].contains(&bot_choice()));
    }
}

#[test]
fn rps_history_round_trip() {
    assert_eq!(rps_history_text(12, 7), "12 7");
    assert_eq!(parse_rps_history("12 7"), Some((12, 7)));
    assert_eq!(parse_rps_history("  12\n7 extra"), Some((12, 7)));
    assert_eq!(parse_rps_history("12"), None);
    assert_eq!(parse_rps_history("a 7"), None);
    assert_eq!(parse_rps_history(""), None);
    for (a, b) in [(0u32, 0u32), (1, 99), (u32::MAX, 5)] {
        assert_eq!(parse_rps_history(&rps_history_text(a, b)), Some((a, b)));
    }
}

#[test]
fn bot_alone_detection() {
    let bot = 1;
    let states = vec![(bot, Some(10)), (2, Some(11)), (3, None)];
    assert_eq!(guild_id_if_alone(Some(10), Some(500), &states, bot), Some(500));
    assert_eq!(guild_id_if_alone(Some(11), Some(500), &states, bot), None);
    let crowded = vec![(2, Some(10)), (bot, Some(10))];
    assert_eq!(guild_id_if_alone(Some(10), Some(500), &crowded, bot), None);
    assert_eq!(guild_id_if_alone(None, Some(500), &states, bot), None);
    assert_eq!(guild_id_if_alone(Some(10), None, &states, bot), None);
}

#[test]
fn command_routing() {
    assert_eq!(command_for("play"), Some(Command::Play));
    assert_eq!(command_for("np"), Some(Command::NowPlaying));
    assert_eq!(command_for("rps"), Some(Command::Rps));
    assert_eq!(command_for("ping"), None);
}

#[test]
fn voice_update_checks_the_old_state_first() {
    let bot = 1u64;
    let alone = VoiceStateSeen { channel: Some(10), guild: Some(500), members: vec![(1, Some(10)), (2, Some(11))] };
    let also_alone = VoiceStateSeen { channel: Some(11), guild: Some(600), members: vec![(1, Some(11))] };
    let crowded = VoiceStateSeen { channel: Some(11), guild: Some(500), members: vec![(1, Some(11)), (2, Some(11))] };
    let left = VoiceStateSeen { channel: None, guild: Some(500), members: vec![] };
    assert_eq!(guild_to_reset(Some(&alone), &also_alone, bot), Some(500));
    assert_eq!(guild_to_reset(Some(&crowded), &also_alone, bot), Some(600));
    assert_eq!(guild_to_reset(None, &also_alone, bot), Some(600));
    assert_eq!(guild_to_reset(Some(&left), &crowded, bot), None);
}

#[test]
fn moves_are_numbered_rock_paper_scissors() {
    assert_eq!(piebot::commands::rps::move_of(0), "Rock");
    assert_eq!(piebot::commands::rps::move_of(1), "Paper");
    assert_eq!(piebot::commands::rps::move_of(2), "Scissors");
}
