//! `/play`: queues what the query names — a YouTube video, a YouTube
//! playlist, a Spotify track, playlist or album, or the best YouTube match
//! for free text — and answers with what was queued.

use std::collections::VecDeque;

use vstd::prelude::*;

use crate::voice::{command_name, Command};

use crate::commands::spec::{CommandOption, CommandOptionView, CommandSpec, CommandSpecView};
use crate::identify_source::{parse_source, spec_parse_source};
use crate::respond::{
    create_embed_list_queue_added, create_embed_no_spotify_result, create_embed_no_yt_search_result,
    create_embed_now_playing, create_embed_user_not_in_voice_channel, create_embed_user_queue_added,
    embed_list_queue_added, embed_no_spotify_result, embed_no_yt_search_result, embed_now_playing,
    embed_user_not_in_voice_channel, embed_user_queue_added, Embed, EmbedView,
};
use crate::structs::{without_id, PlayRequest, ServerProps, Song};
use crate::text::{decimal, decimal_string};

verus! {

/// The first step of `/play`: a user outside a voice channel is told to join
/// one; otherwise the query is classified.
pub fn run(in_voice: bool, query: &str) -> (r: Result<PlayRequest, Embed>)
    ensures
        match r {
            Ok(request) => in_voice && request@ == spec_parse_source(query@),
            Err(e) => !in_voice && e@ == embed_user_not_in_voice_channel(),
        },
{
    if !in_voice {
        return Err(create_embed_user_not_in_voice_channel());
    }
    Ok(parse_source(query))
}

/// Whether a request is looked up on Spotify.
pub open spec fn is_spotify_request(request: PlayRequest) -> bool {
    request is SpotifyTrack || request is SpotifyPlaylist || request is SpotifyAlbum
}

/// The reply when looking up a request found nothing: a Spotify failure for
/// Spotify requests, no search result for the others.
pub open spec fn failed_lookup(request: PlayRequest) -> EmbedView {
    if is_spotify_request(request) {
        embed_no_spotify_result()
    } else {
        embed_no_yt_search_result()
    }
}

/// Builds the reply for a lookup that found nothing.
pub fn lookup_failed(request: &PlayRequest) -> (r: Embed)
    ensures
        r@ == failed_lookup(*request),
{
    match request {
        PlayRequest::SpotifyTrack(_) | PlayRequest::SpotifyPlaylist(_) | PlayRequest::SpotifyAlbum(_) =>
            create_embed_no_spotify_result(),
        _ => create_embed_no_yt_search_result(),
    }
}

/// After a Spotify track was looked up: the text to search YouTube for,
/// which is the track's title ("artists title"); nothing when the track was
/// not found, and the request then fails.
pub fn spotify_track_search(track: Option<Song>) -> (r: Option<String>)
    ensures
        match track {
            Some(t) => r matches Some(q) && q@ == t@.title,
            None => r is None,
        },
{
    match track {
        Some(t) => Some(t.title().to_owned()),
        None => None,
    }
}

/// The last step of a request for one video (a search, a video link, or a
/// Spotify track searched by its title): the video found is queued as a
/// single request; when nothing was found, nothing is queued and the reply
/// says the lookup failed.
pub fn queue_found_song(props: &mut ServerProps, request: &PlayRequest, found: Option<Song>) -> (r: Embed)
    requires
        found matches Some(s) ==> s@.id is Some,
    ensures
        match found {
            Some(song) => final(props)@ == old(props)@.add_request(song) && r@ == if old(props)@.state is Idle {
                embed_now_playing(song)
            } else {
                embed_user_queue_added(
                    song,
                    decimal(final(props)@.requests.len()),
                    decimal(final(props)@.playlist.len()),
                )
            },
            None => final(props)@ == old(props)@ && r@ == failed_lookup(*request),
        },
{
    match found {
        Some(song) => add_single_song(props, song),
        None => lookup_failed(request),
    }
}

/// The last step of a request for a playlist or album: its songs are
/// queued on the playlist queue; when the list could not be had, nothing is
/// queued and the reply says the lookup failed.
pub fn queue_found_list(props: &mut ServerProps, request: &PlayRequest, found: Option<VecDeque<Song>>) -> (r: Embed)
    ensures
        match found {
            Some(list) => old(props)@.add_list(list@).same_but_playlist_order(final(props)@)
                && r@ == embed_list_queue_added(
                    0,
                    final(props)@.requests.len(),
                    list@.len(),
                    final(props)@.playlist.len(),
                ),
            None => final(props)@ == old(props)@ && r@ == failed_lookup(*request),
        },
{
    match found {
        Some(list) => add_playlist(props, list),
        None => lookup_failed(request),
    }
}

/// The last step of a request for a video together with its playlist: only
/// when both the video and the playlist were found are they queued;
/// otherwise nothing is queued and the reply says the lookup failed.
pub fn queue_found_video_and_list(
    props: &mut ServerProps,
    request: &PlayRequest,
    song: Option<Song>,
    list: Option<VecDeque<Song>>,
) -> (r: Embed)
    ensures
        match (song, list) {
            (Some(song), Some(list)) => old(props)@.add_request(song).add_list(
                without_id(list@, song@.id),
            ).same_but_playlist_order(final(props)@) && r@ == embed_list_queue_added(
                1,
                final(props)@.requests.len(),
                without_id(list@, song@.id).len(),
                final(props)@.playlist.len(),
            ),
            _ => final(props)@ == old(props)@ && r@ == failed_lookup(*request),
        },
{
    match (song, list) {
        (Some(song), Some(list)) => add_video_and_playlist(props, song, list),
        _ => lookup_failed(request),
    }
}

/// Queues one found video as a single request. The reply announces it as
/// playing when the player was idle, and as queued, with the queue lengths,
/// otherwise.
pub fn add_single_song(props: &mut ServerProps, song: Song) -> (r: Embed)
    requires
        song@.id is Some,
    ensures
        final(props)@ == old(props)@.add_request(song),
        r@ == if old(props)@.state is Idle {
            embed_now_playing(song)
        } else {
            embed_user_queue_added(
                song,
                decimal(final(props)@.requests.len()),
                decimal(final(props)@.playlist.len()),
            )
        },
{
    let shown = song.duplicate();
    let (is_playing, req_len, play_len) = props.add_single_song(song);
    if is_playing {
        create_embed_user_queue_added(&shown, decimal_string(req_len as u64), decimal_string(play_len as u64))
    } else {
        create_embed_now_playing(&shown)
    }
}

/// Queues the songs of a playlist or album on the playlist queue.
pub fn add_playlist(props: &mut ServerProps, playlist: VecDeque<Song>) -> (r: Embed)
    ensures
        old(props)@.add_list(playlist@).same_but_playlist_order(final(props)@),
        r@ == embed_list_queue_added(
            0,
            final(props)@.requests.len(),
            playlist@.len(),
            final(props)@.playlist.len(),
        ),
{
    let playlist_len = playlist.len();
    let (req_len, play_len) = props.add_playlist(playlist);
    create_embed_list_queue_added(0, req_len, playlist_len, play_len)
}

/// Queues a video linked together with its playlist: the video as a single
/// request, the rest of the playlist on the playlist queue.
pub fn add_video_and_playlist(props: &mut ServerProps, song: Song, playlist: VecDeque<Song>) -> (r: Embed)
    ensures
        old(props)@.add_request(song).add_list(without_id(playlist@, song@.id)).same_but_playlist_order(final(props)@),
        r@ == embed_list_queue_added(
            1,
            final(props)@.requests.len(),
            without_id(playlist@, song@.id).len(),
            final(props)@.playlist.len(),
        ),
{
    let (added, req_len, play_len) = props.add_video_and_playlist(song, playlist);
    create_embed_list_queue_added(1, req_len, added, play_len)
}

/// The `/play` command, which takes the query.
pub fn register() -> (r: CommandSpec)
    ensures
        r@.name == command_name(Command::Play),
        r@ == (CommandSpecView {
            name: "play"@,
            description: "Plays YouTube videos, playlists and Spotify tracks, albums and playlists"@,
            options: seq![CommandOptionView {
                name: "query"@,
                description: "Youtube or Spotify URL, or search"@,
                required: true,
                choices: Seq::empty(),
            }],
        }),
{
    let opt = CommandOption {
        name: "query".to_owned(),
        description: "Youtube or Spotify URL, or search".to_owned(),
        required: true,
        choices: Vec::new(),
    };
    assert(opt@.choices =~= Seq::<Seq<char>>::empty());
    let ghost ov = opt@;
    let mut options: Vec<CommandOption> = Vec::new();
    options.push(opt);
    let r = CommandSpec {
        name: "play".to_owned(),
        description: "Plays YouTube videos, playlists and Spotify tracks, albums and playlists".to_owned(),
        options,
    };
    assert(r@.options =~= seq![ov]);
    r
}

} // verus!
