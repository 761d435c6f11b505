use std::collections::VecDeque;

use piebot::commands::pause::PlaybackStep;
use piebot::commands::{now_playing, pause, play, queue, remove, resume, skip, stop};
use piebot::respond::{
    create_embed_is_paused, create_embed_is_resumed, create_embed_list_queue_added, create_embed_loading, create_embed_no_spotify_result, create_embed_no_yt_search_result, create_embed_not_playing, create_embed_now_playing, create_embed_paused, create_embed_queue_stats, create_embed_removed_last_song, create_embed_removed_last_song_failed, create_embed_resumed, create_embed_rps, create_embed_skipped, create_embed_skipped_failed, create_embed_stopped, create_embed_stopped_failed, create_embed_user_not_in_voice_channel, create_embed_user_queue_added, Embed,
};
use piebot::structs::{PlayRequest, ServerProps, Song};

fn parts(e: &Embed) -> (u32, Option<String>, Vec<(String, String, bool)>) {
    (
        e.colour,
        e.title.clone(),
        e.fields.iter().map(|f| (f.name.clone(), f.value.clone(), f.inline)).collect(),
    )
}

fn titled(colour: u32, title: &str) -> (u32, Option<String>, Vec<(String, String, bool)>) {
    (colour, Some(title.to_string()), vec![])
}

fn note(colour: u32, name: &str, value: &str) -> (u32, Option<String>, Vec<(String, String, bool)>) {
    (colour, None, vec![(name.to_string(), value.to_string(), false)])
}

fn song(id: &str, title: &str) -> Song {
    Song::WithId { id: id.to_string(), title: title.to_string() }
}

#[test]
fn simple_embeds() {
    assert_eq!(parts(&create_embed_loading()), titled(0x00ffff, "Loading..."));
    assert_eq!(parts(&create_embed_no_yt_search_result()), titled(0xff0000, "No search result"));
    assert_eq!(parts(&create_embed_no_spotify_result()), titled(0xff0000, "Spotify query failed"));
    assert_eq!(parts(&create_embed_paused()), titled(0x00ffff, "Paused"));
    assert_eq!(parts(&create_embed_resumed()), titled(0x00ffff, "Resuming"));
    assert_eq!(parts(&create_embed_skipped()), titled(0x00ffff, "Skipped"));
    assert_eq!(parts(&create_embed_stopped()), titled(0x00ffff, "Stopped"));
    assert_eq!(parts(&create_embed_removed_last_song()), titled(0x00ffff, "Removed last song added to user queue"));
    assert_eq!(
        parts(&create_embed_user_not_in_voice_channel()),
        note(0xff9900, "I can't see you", "Please be in a voice channel first!")
    );
    assert_eq!(parts(&create_embed_is_paused()), note(0xff9900, "Nice.", "I'm already paused"));
    assert_eq!(parts(&create_embed_is_resumed()), note(0xff9900, "Nice.", "I'm already playing"));
    assert_eq!(parts(&create_embed_not_playing()), note(0xff9900, "Nice.", "I'm not currently playing anything"));
    assert_eq!(parts(&create_embed_skipped_failed()), note(0xff9900, "Nice.", "There are no songs in either queues"));
    assert_eq!(parts(&create_embed_stopped_failed()), note(0xff9900, "Nice.", "You stopped NOTHING!"));
    assert_eq!(parts(&create_embed_removed_last_song_failed()), note(0xff9900, "Nice.", "No songs in user queue to remove"));
}

#[test]
fn now_playing_embed_links_the_video() {
    let e = create_embed_now_playing(&song("dQw4w9WgXcQ", "Never Gonna Give You Up"));
    assert_eq!(
        parts(&e),
        (
            0x00ffff,
            Some("Now Playing:".to_string()),
            vec![(
                "Never Gonna Give You Up".to_string(),
                "**https://www.youtube.com/watch?v=dQw4w9WgXcQ**".to_string(),
                false
            )]
        )
    );
}

#[test]
fn queue_added_embeds() {
    let e = create_embed_user_queue_added(&song("abc", "T"), "3".to_string(), "12".to_string());
    assert_eq!(e.title.as_deref(), Some("Added to Queue:"));
    assert_eq!(e.fields.len(), 3);
    assert_eq!(e.fields[1].name, "User Queue Length:");
    assert_eq!(e.fields[1].value, "3");
    assert!(e.fields[2].inline);
    let l = create_embed_list_queue_added(1, 4, 25, 130);
    assert_eq!(
        parts(&l),
        (
            0x00ffff,
            Some("Queue Stats".to_string()),
            vec![
                ("User Queue: 4".to_string(), "1 Added".to_string(), true),
                ("Playlist Queue: 130".to_string(), "25 Added".to_string(), true)
            ]
        )
    );
    let q = create_embed_queue_stats("0".to_string(), "7".to_string());
    assert_eq!(q.fields[0].name, "User Queue Length:");
    assert_eq!(q.fields[1].value, "7");
    let r = create_embed_rps(10, 2, "I won!");
    assert_eq!(
        parts(&r),
        (0x00ffff, Some("I won!".to_string()), vec![("Bot".to_string(), "10".to_string(), true), ("Users".to_string(), "2".to_string(), true)])
    );
}

#[test]
fn commands_reply_not_in_voice_first() {
    let mut p = ServerProps::new();
    let not_in_voice = note(0xff9900, "I can't see you", "Please be in a voice channel first!");
    assert_eq!(parts(&now_playing::run(false, &p)), not_in_voice);
    assert_eq!(parts(&queue::run(false, &p)), not_in_voice);
    assert_eq!(parts(&remove::run(false, &mut p)), not_in_voice);
    assert_eq!(parts(&skip::run(false, &p).1), not_in_voice);
    assert!(matches!(pause::run(false, &p), PlaybackStep::Reply(_)));
    assert!(matches!(resume::run(false, &p), PlaybackStep::Reply(_)));
    assert!(play::run(false, "anything").is_err());
}

#[test]
fn commands_when_idle() {
    let mut p = ServerProps::new();
    let not_playing = note(0xff9900, "Nice.", "I'm not currently playing anything");
    assert_eq!(parts(&now_playing::run(true, &p)), not_playing);
    assert_eq!(parts(&queue::run(true, &p)), not_playing);
    assert_eq!(parts(&remove::run(true, &mut p)), not_playing);
    let (stop_track, e) = skip::run(true, &p);
    assert!(!stop_track);
    assert_eq!(parts(&e), not_playing);
    match pause::run(true, &p) {
        PlaybackStep::Reply(e) => assert_eq!(parts(&e), not_playing),
        other => panic!("unexpected {other:?}"),
    }
}

#[test]
fn commands_while_playing() {
    let mut p = ServerProps::new();
    p.start_song(song("dQw4w9WgXcQ", "Song"));
    assert_eq!(now_playing::run(true, &p).title.as_deref(), Some("Now Playing:"));
    let q = queue::run(true, &p);
    assert_eq!(q.fields[0].value, "0");
    let (stop_track, e) = skip::run(true, &p);
    assert!(!stop_track);
    assert_eq!(parts(&e), note(0xff9900, "Nice.", "There are no songs in either queues"));
    assert_eq!(parts(&remove::run(true, &mut p)), note(0xff9900, "Nice.", "No songs in user queue to remove"));
    p.add_single_song(song("aaaaaaaaaaa", "Next"));
    let (stop_track, e) = skip::run(true, &p);
    assert!(stop_track);
    assert_eq!(parts(&e), titled(0x00ffff, "Skipped"));
    assert!(matches!(pause::run(true, &p), PlaybackStep::CheckPlayMode));
    assert!(matches!(resume::run(true, &p), PlaybackStep::CheckPlayMode));
    let (do_pause, e) = pause::on_play_mode(false);
    assert!(do_pause);
    assert_eq!(parts(&e), titled(0x00ffff, "Paused"));
    let (do_pause, e) = pause::on_play_mode(true);
    assert!(!do_pause);
    assert_eq!(parts(&e), note(0xff9900, "Nice.", "I'm already paused"));
    let (do_play, e) = resume::on_play_mode(true);
    assert!(!do_play);
    assert_eq!(parts(&e), note(0xff9900, "Nice.", "I'm already playing"));
    let (do_play, _) = resume::on_play_mode(false);
    assert!(do_play);
    assert_eq!(parts(&remove::run(true, &mut p)), titled(0x00ffff, "Removed last song added to user queue"));
    assert!(p.request_queue().is_empty());
}

#[test]
fn stop_replies() {
    assert_eq!(parts(&stop::run(true)), note(0xff9900, "Nice.", "You stopped NOTHING!"));
    assert_eq!(parts(&stop::run(false)), titled(0x00ffff, "Stopped"));
}

#[test]
fn play_replies() {
    let mut p = ServerProps::new();
    match play::run(true, "https://youtu.be/dQw4w9WgXcQ") {
        Ok(PlayRequest::YouTubeVideo(id)) => assert_eq!(id, "dQw4w9WgXcQ"),
        other => panic!("unexpected {other:?}"),
    }
    let first = play::add_single_song(&mut p, song("aaaaaaaaaaa", "First"));
    assert_eq!(first.title.as_deref(), Some("Now Playing:"));
    p.start_song(song("aaaaaaaaaaa", "First"));
    let second = play::add_single_song(&mut p, song("bbbbbbbbbbb", "Second"));
    assert_eq!(second.title.as_deref(), Some("Added to Queue:"));
    assert_eq!(second.fields[1].value, "2");
    let list: VecDeque<Song> = VecDeque::from(vec![Song::NoId { title: "x".to_string() }, Song::NoId { title: "y".to_string() }]);
    let e = play::add_playlist(&mut p, list);
    assert_eq!(e.fields[0].name, "User Queue: 2");
    assert_eq!(e.fields[0].value, "0 Added");
    assert_eq!(e.fields[1].name, "Playlist Queue: 2");
    assert_eq!(e.fields[1].value, "2 Added");
    let e = play::add_video_and_playlist(
        &mut p,
        song("vvvvvvvvvvv", "V"),
        VecDeque::from(vec![song("vvvvvvvvvvv", "V"), song("ccccccccccc", "C")]),
    );
    assert_eq!(e.fields[0].value, "1 Added");
    assert_eq!(e.fields[1].name, "Playlist Queue: 3");
    assert_eq!(e.fields[1].value, "1 Added");
    assert_eq!(parts(&play::lookup_failed(&PlayRequest::SpotifyAlbum("a".to_string()))), titled(0xff0000, "Spotify query failed"));
    assert_eq!(parts(&play::lookup_failed(&PlayRequest::Search("a".to_string()))), titled(0xff0000, "No search result"));
}

#[test]
fn commands_register_their_names() {
    let names: Vec<String> = [
        play::register(),
        pause::register(),
        resume::register(),
        skip::register(),
        stop::register(),
        remove::register(),
        now_playing::register(),
        queue::register(),
        piebot::commands::rps::register(),
    ]
    .iter()
    .map(|c| c.name.clone())
    .collect();
    assert_eq!(names, vec!["play", "pause", "resume", "skip", "stop", "remove", "np", "queue", "rps"]);
    let p = play::register();
    assert_eq!(p.options.len(), 1);
    assert_eq!(p.options[0].name, "query");
    assert!(p.options[0].required);
    let r = piebot::commands::rps::register();
    assert_eq!(r.options[0].choices, vec!["Rock", "Paper", "Scissors"]);
    assert_eq!(stop::register().description, "Stops current song, deletes queues, leaves voice channel");
}

#[test]
fn play_queues_a_found_video_or_reports_the_failure() {
    let mut p = ServerProps::new();
    let req = PlayRequest::Search("abc".to_string());
    let r = play::queue_found_song(&mut p, &req, Some(song("dQw4w9WgXcQ", "Rick")));
    assert_eq!(parts(&r), parts(&create_embed_now_playing(&song("dQw4w9WgXcQ", "Rick"))));
    assert_eq!(p.request_queue().len(), 1);
    let r = play::queue_found_song(&mut p, &req, None);
    assert_eq!(parts(&r), titled(0xff0000, "No search result"));
    assert_eq!(p.request_queue().len(), 1);
    let spotify = PlayRequest::SpotifyTrack("4cOdK2wGLETKBW3PvgPWqT".to_string());
    let r = play::queue_found_song(&mut p, &spotify, None);
    assert_eq!(parts(&r), titled(0xff0000, "Spotify query failed"));
}

#[test]
fn a_spotify_track_is_searched_by_its_title() {
    let track = Song::NoId { title: "Rick Astley Never Gonna Give You Up".to_string() };
    assert_eq!(play::spotify_track_search(Some(track)), Some("Rick Astley Never Gonna Give You Up".to_string()));
    assert_eq!(play::spotify_track_search(None), None);
}

#[test]
fn play_queues_a_found_list_or_reports_the_failure() {
    let mut p = ServerProps::new();
    let req = PlayRequest::SpotifyAlbum("1LHSxBpDSoNUrOezwOcLKU".to_string());
    let list: VecDeque<Song> = vec![song("aaaaaaaaaaa", "a"), song("bbbbbbbbbbb", "b")].into();
    let r = play::queue_found_list(&mut p, &req, Some(list));
    assert_eq!(parts(&r), parts(&create_embed_list_queue_added(0, 0, 2, 2)));
    let r = play::queue_found_list(&mut p, &req, None);
    assert_eq!(parts(&r), titled(0xff0000, "Spotify query failed"));
    assert_eq!(p.playlist_queue().len(), 2);
}

#[test]
fn video_and_playlist_need_both_lookups() {
    let mut p = ServerProps::new();
    let req = PlayRequest::YouTubeVideoAndPlaylist { video: "aaaaaaaaaaa".to_string(), playlist: "PL".to_string() };
    let list = || -> VecDeque<Song> { vec![song("aaaaaaaaaaa", "a"), song("bbbbbbbbbbb", "b")].into() };
    let r = play::queue_found_video_and_list(&mut p, &req, Some(song("aaaaaaaaaaa", "a")), None);
    assert_eq!(parts(&r), titled(0xff0000, "No search result"));
    let r = play::queue_found_video_and_list(&mut p, &req, None, Some(list()));
    assert_eq!(parts(&r), titled(0xff0000, "No search result"));
    assert_eq!((p.request_queue().len(), p.playlist_queue().len()), (0, 0));
    let r = play::queue_found_video_and_list(&mut p, &req, Some(song("aaaaaaaaaaa", "a")), Some(list()));
    assert_eq!(parts(&r), parts(&create_embed_list_queue_added(1, 1, 1, 1)));
}
