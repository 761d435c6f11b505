use std::collections::VecDeque;

use piebot::audio_handler::{after_search, next_song, should_load_song, watch_url, NextSong};
use piebot::structs::{reset_serprops, AudioHandlerState, ServerProps, Song};

fn with_id(id: &str, title: &str) -> Song {
    Song::WithId { id: id.to_string(), title: title.to_string() }
}

fn no_id(title: &str) -> Song {
    Song::NoId { title: title.to_string() }
}

fn titles(q: &VecDeque<Song>) -> Vec<String> {
    q.iter().map(|s| s.title().to_string()).collect()
}

#[test]
fn new_server_is_empty_and_idle() {
    let p = ServerProps::new();
    assert!(p.request_queue().is_empty());
    assert!(p.playlist_queue().is_empty());
    assert!(p.audio_state().is_idle());
}

#[test]
fn requests_play_before_playlist_songs() {
    let mut p = ServerProps::new();
    p.add_playlist(VecDeque::from(vec![no_id("p1")]));
    p.add_single_song(with_id("aaaaaaaaaaa", "r1"));
    p.add_single_song(with_id("bbbbbbbbbbb", "r2"));
    let order: Vec<String> = std::iter::from_fn(|| p.pop_next_song()).map(|s| s.title().to_string()).collect();
    assert_eq!(order, vec!["r1", "r2", "p1"]);
}

#[test]
fn add_single_song_reports_playing_and_lengths() {
    let mut p = ServerProps::new();
    assert_eq!(p.add_single_song(with_id("aaaaaaaaaaa", "a")), (false, 1, 0));
    p.start_song(with_id("aaaaaaaaaaa", "a"));
    assert_eq!(p.add_single_song(with_id("bbbbbbbbbbb", "b")), (true, 2, 0));
}

#[test]
fn remove_undoes_add() {
    let mut p = ServerProps::new();
    p.add_single_song(with_id("aaaaaaaaaaa", "a"));
    p.add_single_song(with_id("bbbbbbbbbbb", "b"));
    let removed = p.remove_last_request().unwrap();
    assert_eq!(removed.title(), "b");
    assert_eq!(titles(p.request_queue()), vec!["a"]);
    p.remove_last_request();
    assert!(p.remove_last_request().is_none());
}

#[test]
fn shuffle_keeps_the_same_songs() {
    let mut p = ServerProps::new();
    let list: VecDeque<Song> = (0..50).map(|i| no_id(&format!("t{i}"))).collect();
    assert_eq!(p.add_playlist(list), (0, 50));
    p.playlist_queue_shuffle();
    let mut got = titles(p.playlist_queue());
    got.sort();
    let mut want: Vec<String> = (0..50).map(|i| format!("t{i}")).collect();
    want.sort();
    assert_eq!(got, want);
}

#[test]
fn video_with_playlist_is_not_queued_twice() {
    let mut p = ServerProps::new();
    let list = VecDeque::from(vec![with_id("aaaaaaaaaaa", "a"), with_id("vvvvvvvvvvv", "v"), with_id("bbbbbbbbbbb", "b")]);
    let (added, req, play) = p.add_video_and_playlist(with_id("vvvvvvvvvvv", "v"), list);
    assert_eq!((added, req, play), (2, 1, 2));
    let mut rest = titles(p.playlist_queue());
    rest.sort();
    assert_eq!(rest, vec!["a", "b"]);
    assert_eq!(titles(p.request_queue()), vec!["v"]);
}

#[test]
fn reset_clears_everything_and_reports_changes() {
    let mut p = ServerProps::new();
    assert!(reset_serprops(&mut p, false));
    assert!(!reset_serprops(&mut p, true));
    p.add_single_song(with_id("aaaaaaaaaaa", "a"));
    assert!(!reset_serprops(&mut p, false));
    assert!(p.request_queue().is_empty() && p.playlist_queue().is_empty() && p.audio_state().is_idle());
    p.start_song(with_id("aaaaaaaaaaa", "a"));
    assert!(!reset_serprops(&mut p, false));
    assert!(reset_serprops(&mut p, false));
}

#[test]
fn next_song_plays_ids_and_searches_titles() {
    let mut p = ServerProps::new();
    p.add_playlist(VecDeque::from(vec![no_id("artist song")]));
    p.add_single_song(with_id("aaaaaaaaaaa", "a"));
    match next_song(&mut p) {
        NextSong::Play(s) => assert_eq!(s.id(), Some("aaaaaaaaaaa")),
        other => panic!("unexpected {other:?}"),
    }
    match next_song(&mut p) {
        NextSong::Search(t) => assert_eq!(t, "artist song"),
        other => panic!("unexpected {other:?}"),
    }
    assert!(matches!(next_song(&mut p), NextSong::Exhausted));
}

#[test]
fn songs_load_when_idle_or_when_a_song_ended() {
    let mut p = ServerProps::new();
    assert!(should_load_song(&p, false));
    p.start_song(with_id("aaaaaaaaaaa", "a"));
    assert!(!should_load_song(&p, false));
    assert!(should_load_song(&p, true));
    match p.audio_state() {
        AudioHandlerState::CurrentSong { song } => assert_eq!(song.title(), "a"),
        other => panic!("unexpected {other:?}"),
    }
    assert_eq!(p.audio_state().song().unwrap().id(), Some("aaaaaaaaaaa"));
}

#[test]
fn watch_url_links_the_video() {
    assert_eq!(watch_url("dQw4w9WgXcQ"), "https://www.youtube.com/watch?v=dQw4w9WgXcQ");
}

#[test]
fn song_accessors() {
    let s = with_id("x1", "Title");
    assert_eq!(s.title(), "Title");
    assert_eq!(s.id(), Some("x1"));
    let t = no_id("Other");
    assert_eq!(t.title(), "Other");
    assert_eq!(t.id(), None);
    assert!(s.same_id(&with_id("x1", "zzz")));
    assert!(!s.same_id(&t));
    assert_eq!(s.duplicate().title(), "Title");
}

#[test]
fn a_failed_search_moves_on_to_the_next_song() {
    let mut p = ServerProps::new();
    p.add_single_song(no_id("first"));
    p.add_single_song(with_id("bbbbbbbbbbb", "second"));
    assert!(matches!(next_song(&mut p), NextSong::Search(t) if t == "first"));
    match after_search(&mut p, Some(with_id("aaaaaaaaaaa", "found"))) {
        NextSong::Play(s) => assert_eq!(s.title(), "found"),
        _ => panic!("a found video is played"),
    }
    assert_eq!(p.request_queue().len(), 1);
    match after_search(&mut p, None) {
        NextSong::Play(s) => assert_eq!(s.title(), "second"),
        _ => panic!("the next song is taken"),
    }
    assert!(matches!(after_search(&mut p, None), NextSong::Exhausted));
}
