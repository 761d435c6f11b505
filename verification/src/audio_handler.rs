//! Choosing what the player plays: whether a new song has to be started and
//! which one comes next.

use vstd::prelude::*;

use crate::structs::{ServerProps, Song};
use crate::text::push_str;

verus! {

/// Whether to load a song: always when the previous song ended
/// (`goto_next_song`), otherwise only when the player is idle.
pub fn should_load_song(props: &ServerProps, goto_next_song: bool) -> (r: bool)
    ensures
        r == (goto_next_song || props@.state is Idle),
{
    goto_next_song || props.audio_state().is_idle()
}

/// What to do for the next song.
#[derive(Debug)]
pub enum NextSong {
    /// Play this video.
    Play(Song),
    /// Search YouTube for this title; if nothing is found, ask again.
    Search(String),
    /// Both queues are empty.
    Exhausted,
}

/// Takes the next song from the queues (single requests first) and tells
/// whether it can be played as it is or must be searched for first.
pub fn next_song(props: &mut ServerProps) -> (r: NextSong)
    ensures
        final(props)@ == old(props)@.pop_next().1,
        match old(props)@.pop_next().0 {
            Some(song) => match song {
                Song::WithId { .. } => r matches NextSong::Play(s) && s == song,
                Song::NoId { title } => r matches NextSong::Search(t) && t@ == title@,
            },
            None => r is Exhausted,
        },
{
    match props.pop_next_song() {
        Some(Song::WithId { id, title }) => NextSong::Play(Song::WithId { id, title }),
        Some(Song::NoId { title }) => NextSong::Search(title),
        None => NextSong::Exhausted,
    }
}

/// What follows a YouTube search for a queued title: the video found is
/// played; when nothing was found, the next song is taken from the queues
/// instead, as `next_song` does.
pub fn after_search(props: &mut ServerProps, found: Option<Song>) -> (r: NextSong)
    ensures
        match found {
            Some(song) => final(props)@ == old(props)@ && (r matches NextSong::Play(s) && s == song),
            None => final(props)@ == old(props)@.pop_next().1 && match old(props)@.pop_next().0 {
                Some(song) => match song {
                    Song::WithId { .. } => r matches NextSong::Play(s) && s == song,
                    Song::NoId { title } => r matches NextSong::Search(t) && t@ == title@,
                },
                None => r is Exhausted,
            },
        },
{
    match found {
        Some(song) => NextSong::Play(song),
        None => next_song(props),
    }
}

/// The page of a YouTube video, which the audio source is fetched from.
pub fn watch_url(id: &str) -> (r: String)
    ensures
        r@ == "https://www.youtube.com/watch?v="@ + id@,
{
    let mut s = "https://www.youtube.com/watch?v=".to_owned();
    push_str(&mut s, id);
    s
}

} // verus!
