use std::collections::VecDeque;

use piebot::json::{as_array_exec, as_str_exec, as_u64_exec, at_exec, get_exec, Json};
use piebot::spotify::TokenStep;
use piebot::spotify::{
    album_tracks_request, basic_auth_header, bearer_auth_header, build_track_title, playlist_tracks_request,
    spotify_basic_auth, spotify_track_result, spotify_tracks_page, token_answer, track_request, Spotify, SpotifyToken,
};
use piebot::structs::Song;
use piebot::youtube::{
    yt_playlist_page, yt_playlist_request, yt_search_request, yt_search_result, yt_video_request, yt_video_result,
    PageStep,
};

fn s(t: &str) -> Json {
    Json::Str(t.to_string())
}

fn obj(entries: Vec<(&str, Json)>) -> Json {
    Json::Object(entries.into_iter().map(|(k, v)| (k.to_string(), v)).collect())
}

fn arr(items: Vec<Json>) -> Json {
    Json::Array(items)
}

fn titles(q: &VecDeque<Song>) -> Vec<(Option<String>, String)> {
    q.iter().map(|s| (s.id().map(|i| i.to_string()), s.title().to_string())).collect()
}

#[test]
fn youtube_requests() {
    assert_eq!(
        yt_search_request("never gonna give", "KEY"),
        "https://www.googleapis.com/youtube/v3/search?part=snippet&q=never%20gonna%20give&maxResults=1&type=video&key=KEY"
    );
    assert_eq!(
        yt_video_request("dQw4w9WgXcQ", "KEY"),
        "https://www.googleapis.com/youtube/v3/videos?part=snippet&id=dQw4w9WgXcQ&key=KEY"
    );
    assert_eq!(
        yt_playlist_request("", "PL1", "KEY"),
        "https://www.googleapis.com/youtube/v3/playlistItems?part=snippet&maxResults=50&pageToken=&playlistId=PL1&key=KEY"
    );
}

#[test]
fn youtube_search_answer() {
    let answer = obj(vec![(
        "items",
        arr(vec![obj(vec![
            ("id", obj(vec![("kind", s("youtube#video")), ("videoId", s("dQw4w9WgXcQ"))])),
            ("snippet", obj(vec![("title", s("Rick Astley"))])),
        ])]),
    )]);
    let song = yt_search_result(&answer).unwrap();
    assert_eq!(song.id(), Some("dQw4w9WgXcQ"));
    assert_eq!(song.title(), "Rick Astley");
    assert!(yt_search_result(&obj(vec![("items", arr(vec![]))])).is_none());
    assert!(yt_search_result(&Json::Null).is_none());
}

#[test]
fn youtube_video_answer() {
    let answer = obj(vec![("items", arr(vec![obj(vec![("snippet", obj(vec![("title", s("T"))]))])]))]);
    let song = yt_video_result(&answer, "abc").unwrap();
    assert_eq!((song.id(), song.title()), (Some("abc"), "T"));
    assert!(yt_video_result(&obj(vec![]), "abc").is_none());
}

fn yt_item(id: &str, title: &str) -> Json {
    obj(vec![(
        "snippet",
        obj(vec![("title", s(title)), ("resourceId", obj(vec![("videoId", s(id))]))]),
    )])
}

#[test]
fn youtube_playlist_pages() {
    let mut list = VecDeque::new();
    let page1 = obj(vec![("nextPageToken", s("TOK")), ("items", arr(vec![yt_item("a", "A"), yt_item("b", "B")]))]);
    match yt_playlist_page(&mut list, &page1) {
        PageStep::Next(t) => assert_eq!(t, "TOK"),
        other => panic!("unexpected {other:?}"),
    }
    let page2 = obj(vec![("items", arr(vec![yt_item("c", "C")]))]);
    assert!(matches!(yt_playlist_page(&mut list, &page2), PageStep::Done));
    assert_eq!(
        titles(&list),
        vec![
            (Some("a".to_string()), "A".to_string()),
            (Some("b".to_string()), "B".to_string()),
            (Some("c".to_string()), "C".to_string())
        ]
    );
    let bad = obj(vec![("items", arr(vec![yt_item("d", "D"), obj(vec![])]))]);
    assert!(matches!(yt_playlist_page(&mut list, &bad), PageStep::Failed));
    assert_eq!(list.len(), 3);
    let empty = obj(vec![]);
    assert!(matches!(yt_playlist_page(&mut list, &empty), PageStep::Done));
    assert_eq!(list.len(), 3);
}

#[test]
fn spotify_login() {
    assert_eq!(spotify_basic_auth("id", "secret"), "Basic aWQ6c2VjcmV0");
    assert_eq!(spotify_basic_auth("", ""), "Basic Og==");
    assert_eq!(basic_auth_header("abc"), "Basic abc");
    assert_eq!(bearer_auth_header("tok"), "Bearer tok");
    let answer = obj(vec![("access_token", s("tok")), ("token_type", s("Bearer")), ("expires_in", Json::UInt(3600))]);
    assert_eq!(token_answer(&answer), Some(("tok".to_string(), 3600)));
    let fractional = obj(vec![("access_token", s("tok")), ("expires_in", Json::OtherNumber)]);
    assert_eq!(token_answer(&fractional), None);
}

#[test]
fn spotify_token_lifetime() {
    let t = SpotifyToken { token: "tok".to_string(), token_expires_in_sec: 3600 };
    assert_eq!(t.get_valid_token(Some(0)), Some("tok".to_string()));
    assert_eq!(t.get_valid_token(Some(3589)), Some("tok".to_string()));
    assert_eq!(t.get_valid_token(Some(3590)), None);
    assert_eq!(t.get_valid_token(None), None);
    let empty = SpotifyToken { token: String::new(), token_expires_in_sec: 3600 };
    assert_eq!(empty.get_valid_token(Some(0)), None);
    let mut sp = Spotify::new("id".to_string(), "secret".to_string());
    assert_eq!(sp.token.get_valid_token(Some(0)), None);
    sp.store_token("new".to_string(), 100);
    assert_eq!(sp.token.get_valid_token(Some(5)), Some("new".to_string()));
    assert_eq!(sp.id, "id");
}

#[test]
fn spotify_requests() {
    assert_eq!(album_tracks_request("A1"), "https://api.spotify.com/v1/albums/A1/tracks?limit=50&offset=0");
    assert_eq!(playlist_tracks_request("P1"), "https://api.spotify.com/v1/playlists/P1/tracks?limit=100&offset=0");
    assert_eq!(track_request("T1"), "https://api.spotify.com/v1/tracks/T1");
}

fn artists(names: &[&str]) -> Json {
    arr(names.iter().map(|n| obj(vec![("name", s(n))])).collect())
}

#[test]
fn spotify_track_titles() {
    assert_eq!(build_track_title(Some(&artists(&["A", "B"])), "Song"), Some("A B Song".to_string()));
    assert_eq!(build_track_title(Some(&artists(&[])), "Song"), Some("Song".to_string()));
    let odd = arr(vec![obj(vec![("id", s("x"))]), obj(vec![("name", s("C"))])]);
    assert_eq!(build_track_title(Some(&odd), "Song"), Some("C Song".to_string()));
    assert_eq!(build_track_title(None, "Song"), None);
    assert_eq!(build_track_title(Some(&s("A")), "Song"), None);
    let track = obj(vec![("name", s("Hey")), ("artists", artists(&["X"]))]);
    let song = spotify_track_result(&track).unwrap();
    assert_eq!((song.id(), song.title()), (None, "X Hey"));
    assert!(spotify_track_result(&obj(vec![("name", s("Hey"))])).is_none());
}

#[test]
fn spotify_listing_pages() {
    let mut list = VecDeque::new();
    let album = obj(vec![
        ("items", arr(vec![obj(vec![("name", s("One")), ("artists", artists(&["A"]))])])),
        ("next", s("https://next")),
    ]);
    match spotify_tracks_page(&mut list, &album, false) {
        PageStep::Next(u) => assert_eq!(u, "https://next"),
        other => panic!("unexpected {other:?}"),
    }
    let playlist = obj(vec![
        ("items", arr(vec![obj(vec![("track", obj(vec![("name", s("Two")), ("artists", artists(&["B", "C"]))]))])])),
        ("next", Json::Null),
    ]);
    assert!(matches!(spotify_tracks_page(&mut list, &playlist, true), PageStep::Done));
    assert_eq!(titles(&list), vec![(None, "A One".to_string()), (None, "B C Two".to_string())]);
    assert!(matches!(spotify_tracks_page(&mut list, &obj(vec![]), false), PageStep::Failed));
    let broken = obj(vec![("items", arr(vec![obj(vec![("track", Json::Null)])]))]);
    assert!(matches!(spotify_tracks_page(&mut list, &broken, true), PageStep::Failed));
    assert_eq!(list.len(), 2);
}

#[test]
fn json_lookups_follow_indexing() {
    let doc = obj(vec![("a", arr(vec![s("x"), Json::UInt(7)])), ("b", Json::Bool(true))]);
    let a = get_exec(Some(&doc), "a");
    assert_eq!(as_array_exec(a).map(|v| v.len()), Some(2));
    assert_eq!(as_str_exec(at_exec(a, 0)), Some("x"));
    assert_eq!(as_u64_exec(at_exec(a, 1)), Some(7));
    assert!(at_exec(a, 2).is_none());
    assert!(get_exec(Some(&doc), "missing").is_none());
    assert!(get_exec(get_exec(Some(&doc), "b"), "c").is_none());
    assert!(as_str_exec(get_exec(Some(&doc), "b")).is_none());
    assert!(get_exec(None, "a").is_none());
}

#[test]
fn spotify_token_request() {
    let r = piebot::spotify::token_request("id", "secret");
    assert_eq!(r.method, "POST");
    assert_eq!(r.url, "https://accounts.spotify.com/api/token");
    assert_eq!(r.content_type, "application/x-www-form-urlencoded");
    assert_eq!(r.authorization, "Basic aWQ6c2VjcmV0");
    assert_eq!(r.body, "grant_type=client_credentials");
}

#[test]
fn spotify_token_reuse_or_login() {
    let mut sp = Spotify::new("id".to_string(), "secret".to_string());
    match sp.token_step(Some(0)) {
        TokenStep::Fetch(r) => assert_eq!(r.authorization, "Basic aWQ6c2VjcmV0"),
        TokenStep::Use(_) => panic!("an empty token is never used"),
    }
    let broken = obj(vec![("access_token", s("tok"))]);
    assert_eq!(sp.receive_token(&broken), None);
    assert_eq!(sp.token.token, "");
    let answer = obj(vec![("access_token", s("tok")), ("expires_in", Json::UInt(3600))]);
    assert_eq!(sp.receive_token(&answer), Some("tok".to_string()));
    assert!(matches!(sp.token_step(Some(100)), TokenStep::Use(t) if t == "tok"));
    assert!(matches!(sp.token_step(Some(3590)), TokenStep::Fetch(_)));
    assert!(matches!(sp.token_step(None), TokenStep::Fetch(_)));
}
