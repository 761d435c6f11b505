use piebot::identify_source::{
    parse_source, spotify_album_extract, spotify_playlist_extract, spotify_track_extract, yt_id_extract,
    yt_list_extract,
};
use piebot::structs::PlayRequest;
use regex_lite::Regex;

fn capture(re: &str, group: usize, input: &str) -> Option<String> {
    let re = Regex::new(re).unwrap();
    re.captures(input)
        .and_then(|c| c.get(group))
        .map(|m| m.as_str().to_string())
}

const YT_ID: &str = r"^.*((m\.)?youtu\.be/|e/|vi?/|u/\w/|embed/|\?vi?=|\&vi?=)([^#\&\?]{11}).*";
const YT_LIST: &str = r"list=([A-Za-z0-9_-]{34,41})";
// The Spotify grammar, localized web links (`spotify.com/intl-de/track/..`)
// included.
const SP_TRACK: &str = r"(?:spotify:track:|spotify\.com/(?:intl-[A-Za-z0-9_-]+/)?track/)([A-Za-z0-9]{22})";
const SP_PLAYLIST: &str = r"(?:spotify:playlist:|spotify\.com/(?:intl-[A-Za-z0-9_-]+/)?playlist/)([A-Za-z0-9]{22})";
const SP_ALBUM: &str = r"(?:spotify:album:|spotify\.com/(?:intl-[A-Za-z0-9_-]+/)?album/)([A-Za-z0-9]{22})";

fn samples() -> Vec<String> {
    let mut v: Vec<String> = vec![
        "",
        "never gonna give you up",
        "https://www.youtube.com/watch?v=dQw4w9WgXcQ",
        "https://youtu.be/dQw4w9WgXcQ",
        "https://m.youtu.be/dQw4w9WgXcQ?t=42",
        "https://www.youtube.com/embed/dQw4w9WgXcQ",
        "https://www.youtube.com/v/dQw4w9WgXcQ?version=3",
        "https://www.youtube.com/vi/dQw4w9WgXcQ",
        "https://www.youtube.com/user/u/1/dQw4w9WgXcQ",
        "https://www.youtube.com/watch?feature=share&v=dQw4w9WgXcQ",
        "https://www.youtube.com/watch?vi=dQw4w9WgXcQ",
        "https://www.youtube.com/watch?x=1&vi=dQw4w9WgXcQ",
        "https://www.youtube.com/watch?v=dQw4w9WgXcQ&list=PLFgquLnL59alCl_2TQvOiD5Vgm1hCaGSI",
        "https://www.youtube.com/playlist?list=PLFgquLnL59alCl_2TQvOiD5Vgm1hCaGSI",
        "https://www.youtube.com/playlist?list=PLshort",
        "https://www.youtube.com/playlist?list=PL0123456789012345678901234567890123456789012345",
        "list=abc list=PLFgquLnL59alCl_2TQvOiD5Vgm1hCaGSI",
        "https://www.youtube.com/watch?v=dQw4w9#",
        "https://www.youtube.com/watch?v=dQw4w9WgXc",
        "e/aaaaaaaaaaae/bbbbbbbbbbb",
        "v/12345678901\nv/abcdefghijk",
        "first line\nhttps://youtu.be/dQw4w9WgXcQ",
        "https://youtu.be/dQw4w\n9WgXcQ",
        "https://youtu.be/ñandú_éèàçü",
        "spotify:track:4cOdK2wGLETKBW3PvgPWqT",
        "https://open.spotify.com/track/4cOdK2wGLETKBW3PvgPWqT?si=abc",
        "https://open.spotify.com/playlist/37i9dQZF1DXcBWIGoYBM5M",
        "spotify:playlist:37i9dQZF1DXcBWIGoYBM5M",
        "https://open.spotify.com/album/1LHSxBpDSoNUrOezwOcLKU",
        "spotify:album:1LHSxBpDSoNUrOezwOcLKU",
        "spotify:album:1LHSxBpDSoNUrOezwOcLK",
        "spotify:track:short spotify.com/track/4cOdK2wGLETKBW3PvgPWqT",
        "spotify:track:4cOdK2wGLETKBW3PvgPWq_",
        "https://open.spotify.com/intl-de/track/0123456789ABCDEFGHIJKL",
        "https://open.spotify.com/intl-pt-BR/album/1LHSxBpDSoNUrOezwOcLKU?si=x",
        "https://open.spotify.com/intl-/track/0123456789ABCDEFGHIJKL",
        "https://open.spotify.com/intl-de/tracks/0123456789ABCDEFGHIJKL",
        "spotify.com/intl-de/intl-fr/track/0123456789ABCDEFGHIJKL",
        "spotify.com/intl-de/track/short spotify.com/intl-fr/track/0123456789ABCDEFGHIJKL",
        "u/_/dQw4w9WgXcQ",
        "u/-/dQw4w9WgXcQ",
        "&v=&v=dQw4w9WgXcQ",
        "?v=dQw4w9WgXcQ?v=abcdefghijk",
    ]
    .into_iter()
    .map(|s| s.to_string())
    .collect();
    // Pseudo-random strings over an alphabet rich in marker characters.
    let alphabet: Vec<char> = "ev/u?&=#.mytb_-listRPok:\nAZ09 é".chars().collect();
    let mut seed: u64 = 0x9E3779B97F4A7C15;
    for len in 0..60usize {
        for _ in 0..40 {
            let mut s = String::new();
            for _ in 0..len {
                seed ^= seed << 13;
                seed ^= seed >> 7;
                seed ^= seed << 17;
                s.push(alphabet[(seed % alphabet.len() as u64) as usize]);
            }
            v.push(s);
        }
    }
    for prefix in ["youtu.be/", "list=", "spotify:track:", "spotify.com/album/", "spotify.com/intl-ja/track/", "v/", "u/a/"] {
        for len in [10usize, 11, 12, 21, 22, 23, 33, 34, 40, 41, 42] {
            let body: String = std::iter::repeat('x').take(len).collect();
            v.push(format!("{prefix}{body}"));
            v.push(format!("junk {prefix}{body}#rest"));
        }
    }
    v
}

#[test]
fn yt_id_agrees_with_the_regex() {
    // Away from localized Spotify links the grammar is the regex.
    for s in samples().into_iter().filter(|s| !s.contains("spotify.com/intl-")) {
        assert_eq!(yt_id_extract(&s), capture(YT_ID, 3, &s), "input {s:?}");
    }
}

#[test]
fn yt_list_agrees_with_the_regex() {
    for s in samples() {
        assert_eq!(yt_list_extract(&s), capture(YT_LIST, 1, &s), "input {s:?}");
    }
}

#[test]
fn spotify_ids_agree_with_the_regexes() {
    for s in samples() {
        assert_eq!(spotify_track_extract(&s), capture(SP_TRACK, 1, &s), "input {s:?}");
        assert_eq!(spotify_playlist_extract(&s), capture(SP_PLAYLIST, 1, &s), "input {s:?}");
        assert_eq!(spotify_album_extract(&s), capture(SP_ALBUM, 1, &s), "input {s:?}");
    }
}

fn is(r: PlayRequest, expected: &str) {
    assert_eq!(format!("{r:?}"), expected);
}

#[test]
fn youtube_video_link_is_a_video() {
    is(parse_source("https://www.youtube.com/watch?v=dQw4w9WgXcQ"), r#"YouTubeVideo("dQw4w9WgXcQ")"#);
    is(parse_source("https://youtu.be/dQw4w9WgXcQ"), r#"YouTubeVideo("dQw4w9WgXcQ")"#);
}

#[test]
fn youtube_video_with_list_takes_both() {
    is(
        parse_source("https://www.youtube.com/watch?v=dQw4w9WgXcQ&list=PLFgquLnL59alCl_2TQvOiD5Vgm1hCaGSI"),
        r#"YouTubeVideoAndPlaylist { video: "dQw4w9WgXcQ", playlist: "PLFgquLnL59alCl_2TQvOiD5Vgm1hCaGSI" }"#,
    );
}

#[test]
fn youtube_playlist_link_is_a_playlist() {
    is(
        parse_source("https://www.youtube.com/playlist?list=PLFgquLnL59alCl_2TQvOiD5Vgm1hCaGSI"),
        r#"YouTubePlaylist("PLFgquLnL59alCl_2TQvOiD5Vgm1hCaGSI")"#,
    );
}

#[test]
fn spotify_links_are_recognised() {
    is(parse_source("https://open.spotify.com/track/4cOdK2wGLETKBW3PvgPWqT"), r#"SpotifyTrack("4cOdK2wGLETKBW3PvgPWqT")"#);
    is(parse_source("spotify:playlist:37i9dQZF1DXcBWIGoYBM5M"), r#"SpotifyPlaylist("37i9dQZF1DXcBWIGoYBM5M")"#);
    is(parse_source("https://open.spotify.com/album/1LHSxBpDSoNUrOezwOcLKU"), r#"SpotifyAlbum("1LHSxBpDSoNUrOezwOcLKU")"#);
}

#[test]
fn free_text_is_searched_as_typed() {
    is(parse_source("never gonna give you up"), r#"Search("never gonna give you up")"#);
    is(parse_source(""), r#"Search("")"#);
}

#[test]
fn last_marker_on_first_line_wins() {
    assert_eq!(yt_id_extract("e/aaaaaaaaaaae/bbbbbbbbbbb"), Some("bbbbbbbbbbb".to_string()));
    assert_eq!(yt_id_extract("v/12345678901\nv/abcdefghijk"), Some("12345678901".to_string()));
}

#[test]
fn every_found_id_has_the_shape_of_its_kind() {
    for s in samples() {
        if let Some(id) = yt_id_extract(&s) {
            assert_eq!(id.chars().count(), 11);
            assert!(!id.contains(['#', '&', '?']));
            assert!(s.contains(&id));
        }
        if let Some(id) = yt_list_extract(&s) {
            let n = id.chars().count();
            assert!((34..=41).contains(&n));
            assert!(id.chars().all(|c| c.is_ascii_alphanumeric() || c == '_' || c == '-'));
        }
        for id in [spotify_track_extract(&s), spotify_playlist_extract(&s), spotify_album_extract(&s)].into_iter().flatten() {
            assert_eq!(id.len(), 22);
            assert!(id.chars().all(|c| c.is_ascii_alphanumeric()));
        }
    }
}

#[test]
fn localized_spotify_links_are_spotify() {
    is(
        parse_source("https://open.spotify.com/intl-de/track/0123456789ABCDEFGHIJKL"),
        r#"SpotifyTrack("0123456789ABCDEFGHIJKL")"#,
    );
    is(
        parse_source("https://open.spotify.com/intl-de/album/1LHSxBpDSoNUrOezwOcLKU?si=abc"),
        r#"SpotifyAlbum("1LHSxBpDSoNUrOezwOcLKU")"#,
    );
    is(
        parse_source("https://open.spotify.com/intl-fr/playlist/37i9dQZF1DXcBWIGoYBM5M"),
        r#"SpotifyPlaylist("37i9dQZF1DXcBWIGoYBM5M")"#,
    );
}

#[test]
fn a_youtube_link_wins_over_a_spotify_reference() {
    is(
        parse_source("https://youtu.be/dQw4w9WgXcQ spotify:track:4cOdK2wGLETKBW3PvgPWqT"),
        r#"YouTubeVideo("dQw4w9WgXcQ")"#,
    );
    is(
        parse_source("https://open.spotify.com/intl-de/track/0123456789ABCDEFGHIJKL https://youtu.be/dQw4w9WgXcQ"),
        r#"YouTubeVideo("dQw4w9WgXcQ")"#,
    );
}

#[test]
fn no_video_id_is_read_from_a_spotify_locale() {
    assert_eq!(yt_id_extract("https://open.spotify.com/intl-de/track/0123456789ABCDEFGHIJKL"), None);
    assert_eq!(yt_id_extract("spotify.com/intl-de/xxxxxxxxxxx"), None);
    assert_eq!(yt_id_extract("spotify.com/intl-/aaaaaaaaaae/bbbbbbbbbbb"), Some("bbbbbbbbbbb".to_string()));
    assert_eq!(yt_id_extract("xe/aaaaaaaaaaa"), Some("aaaaaaaaaaa".to_string()));
}
