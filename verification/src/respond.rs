//! The replies the bot gives: each command answers with an embed, a coloured
//! card with an optional title and a list of named fields.

use vstd::prelude::*;

use crate::structs::Song;
use crate::text::{decimal, decimal_string, push_str};

verus! {

/// Colour of informative replies.
pub const COLOUR_INFO: u32 = 0x00ffff;

/// Colour of replies that point out that nothing could be done.
pub const COLOUR_NOTICE: u32 = 0xff9900;

/// Colour of replies that report a failed lookup.
pub const COLOUR_ERROR: u32 = 0xff0000;

/// One named field of an embed.
#[derive(Debug)]
pub struct EmbedField {
    pub name: String,
    pub value: String,
    pub inline: bool,
}

/// A reply card: colour, optional title, fields in order.
#[derive(Debug)]
pub struct Embed {
    pub colour: u32,
    pub title: Option<String>,
    pub fields: Vec<EmbedField>,
}

/// The abstract value of a field.
pub struct EmbedFieldView {
    pub name: Seq<char>,
    pub value: Seq<char>,
    pub inline: bool,
}

/// The abstract value of an embed.
pub struct EmbedView {
    pub colour: u32,
    pub title: Option<Seq<char>>,
    pub fields: Seq<EmbedFieldView>,
}

impl View for EmbedField {
    type V = EmbedFieldView;

    open spec fn view(&self) -> EmbedFieldView {
        EmbedFieldView { name: self.name@, value: self.value@, inline: self.inline }
    }
}

impl View for Embed {
    type V = EmbedView;

    open spec fn view(&self) -> EmbedView {
        EmbedView {
            colour: self.colour,
            title: match self.title {
                Some(t) => Some(t@),
                None => None,
            },
            fields: self.fields@.map_values(|f: EmbedField| f@),
        }
    }
}

/// A field.
pub open spec fn field(name: Seq<char>, value: Seq<char>, inline: bool) -> EmbedFieldView {
    EmbedFieldView { name, value, inline }
}

/// An embed with a title and no fields.
pub open spec fn titled(colour: u32, title: Seq<char>) -> EmbedView {
    EmbedView { colour, title: Some(title), fields: Seq::empty() }
}

/// An embed with a title and fields.
pub open spec fn titled_with(colour: u32, title: Seq<char>, fields: Seq<EmbedFieldView>) -> EmbedView {
    EmbedView { colour, title: Some(title), fields }
}

/// An embed without title holding one field that is not inline.
pub open spec fn note(colour: u32, name: Seq<char>, value: Seq<char>) -> EmbedView {
    EmbedView { colour, title: None, fields: seq![field(name, value, false)] }
}

/// The YouTube link of a video, in bold.
pub open spec fn bold_watch_link(id: Seq<char>) -> Seq<char> {
    "**https://www.youtube.com/watch?v="@ + id + "**"@
}

/// The content of [`create_embed_loading`].
pub open spec fn embed_loading() -> EmbedView {
    titled(COLOUR_INFO, "Loading..."@)
}

/// The content of [`create_embed_user_not_in_voice_channel`].
pub open spec fn embed_user_not_in_voice_channel() -> EmbedView {
    note(COLOUR_NOTICE, "I can't see you"@, "Please be in a voice channel first!"@)
}

/// The content of [`create_embed_no_yt_search_result`].
pub open spec fn embed_no_yt_search_result() -> EmbedView {
    titled(COLOUR_ERROR, "No search result"@)
}

/// The content of [`create_embed_no_spotify_result`].
pub open spec fn embed_no_spotify_result() -> EmbedView {
    titled(COLOUR_ERROR, "Spotify query failed"@)
}

/// The content of [`create_embed_now_playing`].
pub open spec fn embed_now_playing(song: Song) -> EmbedView {
    titled_with(COLOUR_INFO, "Now Playing:"@, seq![field(song@.title, bold_watch_link(song@.id.unwrap()), false)])
}

/// The content of [`create_embed_user_queue_added`].
pub open spec fn embed_user_queue_added(song: Song, req_q: Seq<char>, play_q: Seq<char>) -> EmbedView {
    titled_with(
        COLOUR_INFO,
        "Added to Queue:"@,
        seq![
            field(song@.title, bold_watch_link(song@.id.unwrap()), false),
            field("User Queue Length:"@, req_q, true),
            field("Playlist Queue Length:"@, play_q, true),
        ],
    )
}

/// The content of [`create_embed_list_queue_added`].
pub open spec fn embed_list_queue_added(
    req_len_added: nat,
    req_queue_len: nat,
    play_len_added: nat,
    playlist_queue_len: nat,
) -> EmbedView {
    titled_with(
        COLOUR_INFO,
        "Queue Stats"@,
        seq![
            field("User Queue: "@ + decimal(req_queue_len), decimal(req_len_added) + " Added"@, true),
            field("Playlist Queue: "@ + decimal(playlist_queue_len), decimal(play_len_added) + " Added"@, true),
        ],
    )
}

/// The content of [`create_embed_rps`].
pub open spec fn embed_rps(bot_score: nat, user_score: nat, winner: Seq<char>) -> EmbedView {
    titled_with(
        COLOUR_INFO,
        winner,
        seq![field("Bot"@, decimal(bot_score), true), field("Users"@, decimal(user_score), true)],
    )
}

/// The content of [`create_embed_queue_stats`].
pub open spec fn embed_queue_stats(req_len: Seq<char>, play_len: Seq<char>) -> EmbedView {
    titled_with(
        COLOUR_INFO,
        "Queue Stats"@,
        seq![field("User Queue Length:"@, req_len, true), field("Playlist Queue Length:"@, play_len, true)],
    )
}

/// The content of [`create_embed_paused`].
pub open spec fn embed_paused() -> EmbedView {
    titled(COLOUR_INFO, "Paused"@)
}

/// The content of [`create_embed_is_paused`].
pub open spec fn embed_is_paused() -> EmbedView {
    note(COLOUR_NOTICE, "Nice."@, "I'm already paused"@)
}

/// The content of [`create_embed_resumed`].
pub open spec fn embed_resumed() -> EmbedView {
    titled(COLOUR_INFO, "Resuming"@)
}

/// The content of [`create_embed_is_resumed`].
pub open spec fn embed_is_resumed() -> EmbedView {
    note(COLOUR_NOTICE, "Nice."@, "I'm already playing"@)
}

/// The content of [`create_embed_not_playing`].
pub open spec fn embed_not_playing() -> EmbedView {
    note(COLOUR_NOTICE, "Nice."@, "I'm not currently playing anything"@)
}

/// The content of [`create_embed_skipped`].
pub open spec fn embed_skipped() -> EmbedView {
    titled(COLOUR_INFO, "Skipped"@)
}

/// The content of [`create_embed_skipped_failed`].
pub open spec fn embed_skipped_failed() -> EmbedView {
    note(COLOUR_NOTICE, "Nice."@, "There are no songs in either queues"@)
}

/// The content of [`create_embed_stopped`].
pub open spec fn embed_stopped() -> EmbedView {
    titled(COLOUR_INFO, "Stopped"@)
}

/// The content of [`create_embed_stopped_failed`].
pub open spec fn embed_stopped_failed() -> EmbedView {
    note(COLOUR_NOTICE, "Nice."@, "You stopped NOTHING!"@)
}

/// The content of [`create_embed_removed_last_song`].
pub open spec fn embed_removed_last_song() -> EmbedView {
    titled(COLOUR_INFO, "Removed last song added to user queue"@)
}

/// The content of [`create_embed_removed_last_song_failed`].
pub open spec fn embed_removed_last_song_failed() -> EmbedView {
    note(COLOUR_NOTICE, "Nice."@, "No songs in user queue to remove"@)
}

fn make_titled(colour: u32, title: &str) -> (r: Embed)
    ensures
        r@ == titled(colour, title@),
{
    let r = Embed { colour, title: Some(title.to_owned()), fields: Vec::new() };
    assert(r@.fields =~= Seq::<EmbedFieldView>::empty());
    r
}

fn make_note(colour: u32, name: &str, value: &str) -> (r: Embed)
    ensures
        r@ == note(colour, name@, value@),
{
    let mut fields: Vec<EmbedField> = Vec::new();
    fields.push(EmbedField { name: name.to_owned(), value: value.to_owned(), inline: false });
    let r = Embed { colour, title: None, fields };
    assert(r@.fields =~= seq![field(name@, value@, false)]);
    r
}

fn bold_watch_link_string(id: &str) -> (r: String)
    ensures
        r@ == bold_watch_link(id@),
{
    let mut s = "**https://www.youtube.com/watch?v=".to_owned();
    push_str(&mut s, id);
    push_str(&mut s, "**");
    s
}

/// "Loading..."
pub fn create_embed_loading() -> (r: Embed)
    ensures
        r@ == embed_loading(),
{
    make_titled(COLOUR_INFO, "Loading...")
}

/// Asks the user to join a voice channel first.
pub fn create_embed_user_not_in_voice_channel() -> (r: Embed)
    ensures
        r@ == embed_user_not_in_voice_channel(),
{
    make_note(COLOUR_NOTICE, "I can't see you", "Please be in a voice channel first!")
}

/// A YouTube lookup found nothing.
pub fn create_embed_no_yt_search_result() -> (r: Embed)
    ensures
        r@ == embed_no_yt_search_result(),
{
    make_titled(COLOUR_ERROR, "No search result")
}

/// A Spotify lookup failed.
pub fn create_embed_no_spotify_result() -> (r: Embed)
    ensures
        r@ == embed_no_spotify_result(),
{
    make_titled(COLOUR_ERROR, "Spotify query failed")
}

/// Announces the song that starts playing, with its link.
pub fn create_embed_now_playing(song: &Song) -> (r: Embed)
    requires
        song@.id is Some,
    ensures
        r@ == embed_now_playing(*song),
{
    let id = song.id().unwrap();
    let mut fields: Vec<EmbedField> = Vec::new();
    fields.push(EmbedField { name: song.title().to_owned(), value: bold_watch_link_string(id), inline: false });
    let r = Embed { colour: COLOUR_INFO, title: Some("Now Playing:".to_owned()), fields };
    assert(r@.fields =~= seq![field(song@.title, bold_watch_link(song@.id.unwrap()), false)]);
    r
}

/// Confirms that a song was queued, with both queue lengths.
pub fn create_embed_user_queue_added(song: &Song, req_q: String, play_q: String) -> (r: Embed)
    requires
        song@.id is Some,
    ensures
        r@ == embed_user_queue_added(*song, req_q@, play_q@),
{
    let id = song.id().unwrap();
    let ghost rq = req_q@;
    let ghost pq = play_q@;
    let mut fields: Vec<EmbedField> = Vec::new();
    fields.push(EmbedField { name: song.title().to_owned(), value: bold_watch_link_string(id), inline: false });
    fields.push(EmbedField { name: "User Queue Length:".to_owned(), value: req_q, inline: true });
    fields.push(EmbedField { name: "Playlist Queue Length:".to_owned(), value: play_q, inline: true });
    let r = Embed { colour: COLOUR_INFO, title: Some("Added to Queue:".to_owned()), fields };
    assert(r@.fields =~= seq![
        field(song@.title, bold_watch_link(song@.id.unwrap()), false),
        field("User Queue Length:"@, rq, true),
        field("Playlist Queue Length:"@, pq, true),
    ]);
    r
}

/// Reports how many songs went to each queue and how long the queues are.
pub fn create_embed_list_queue_added(
    req_len_added: usize,
    req_queue_len: usize,
    play_len_added: usize,
    playlist_queue_len: usize,
) -> (r: Embed)
    ensures
        r@ == embed_list_queue_added(
            req_len_added as nat,
            req_queue_len as nat,
            play_len_added as nat,
            playlist_queue_len as nat,
        ),
{
    let mut user_queue_title = "User Queue: ".to_owned();
    push_str(&mut user_queue_title, decimal_string(req_queue_len as u64).as_str());
    let mut user_queue_value = decimal_string(req_len_added as u64);
    push_str(&mut user_queue_value, " Added");
    let mut playlist_queue_title = "Playlist Queue: ".to_owned();
    push_str(&mut playlist_queue_title, decimal_string(playlist_queue_len as u64).as_str());
    let mut playlist_queue_value = decimal_string(play_len_added as u64);
    push_str(&mut playlist_queue_value, " Added");
    let ghost f0 = field(user_queue_title@, user_queue_value@, true);
    let ghost f1 = field(playlist_queue_title@, playlist_queue_value@, true);
    let mut fields: Vec<EmbedField> = Vec::new();
    fields.push(EmbedField { name: user_queue_title, value: user_queue_value, inline: true });
    fields.push(EmbedField { name: playlist_queue_title, value: playlist_queue_value, inline: true });
    let r = Embed { colour: COLOUR_INFO, title: Some("Queue Stats".to_owned()), fields };
    assert(r@.fields =~= seq![f0, f1]);
    r
}

/// The result of a round of rock, paper, scissors and the scores.
pub fn create_embed_rps(bot_score: u32, user_score: u32, winner: &str) -> (r: Embed)
    ensures
        r@ == embed_rps(bot_score as nat, user_score as nat, winner@),
{
    let mut fields: Vec<EmbedField> = Vec::new();
    fields.push(EmbedField { name: "Bot".to_owned(), value: decimal_string(bot_score as u64), inline: true });
    fields.push(EmbedField { name: "Users".to_owned(), value: decimal_string(user_score as u64), inline: true });
    let r = Embed { colour: COLOUR_INFO, title: Some(winner.to_owned()), fields };
    assert(r@.fields =~= seq![field("Bot"@, decimal(bot_score as nat), true), field("Users"@, decimal(user_score as nat), true)]);
    r
}

/// The lengths of both queues.
pub fn create_embed_queue_stats(req_len: String, play_len: String) -> (r: Embed)
    ensures
        r@ == embed_queue_stats(req_len@, play_len@),
{
    let ghost rq = req_len@;
    let ghost pq = play_len@;
    let mut fields: Vec<EmbedField> = Vec::new();
    fields.push(EmbedField { name: "User Queue Length:".to_owned(), value: req_len, inline: true });
    fields.push(EmbedField { name: "Playlist Queue Length:".to_owned(), value: play_len, inline: true });
    let r = Embed { colour: COLOUR_INFO, title: Some("Queue Stats".to_owned()), fields };
    assert(r@.fields =~= seq![field("User Queue Length:"@, rq, true), field("Playlist Queue Length:"@, pq, true)]);
    r
}

/// "Paused"
pub fn create_embed_paused() -> (r: Embed)
    ensures
        r@ == embed_paused(),
{
    make_titled(COLOUR_INFO, "Paused")
}

/// The player was paused already.
pub fn create_embed_is_paused() -> (r: Embed)
    ensures
        r@ == embed_is_paused(),
{
    make_note(COLOUR_NOTICE, "Nice.", "I'm already paused")
}

/// "Resuming"
pub fn create_embed_resumed() -> (r: Embed)
    ensures
        r@ == embed_resumed(),
{
    make_titled(COLOUR_INFO, "Resuming")
}

/// The player was playing already.
pub fn create_embed_is_resumed() -> (r: Embed)
    ensures
        r@ == embed_is_resumed(),
{
    make_note(COLOUR_NOTICE, "Nice.", "I'm already playing")
}

/// Nothing is playing.
pub fn create_embed_not_playing() -> (r: Embed)
    ensures
        r@ == embed_not_playing(),
{
    make_note(COLOUR_NOTICE, "Nice.", "I'm not currently playing anything")
}

/// "Skipped"
pub fn create_embed_skipped() -> (r: Embed)
    ensures
        r@ == embed_skipped(),
{
    make_titled(COLOUR_INFO, "Skipped")
}

/// Nothing to skip to.
pub fn create_embed_skipped_failed() -> (r: Embed)
    ensures
        r@ == embed_skipped_failed(),
{
    make_note(COLOUR_NOTICE, "Nice.", "There are no songs in either queues")
}

/// "Stopped"
pub fn create_embed_stopped() -> (r: Embed)
    ensures
        r@ == embed_stopped(),
{
    make_titled(COLOUR_INFO, "Stopped")
}

/// There was nothing to stop.
pub fn create_embed_stopped_failed() -> (r: Embed)
    ensures
        r@ == embed_stopped_failed(),
{
    make_note(COLOUR_NOTICE, "Nice.", "You stopped NOTHING!")
}

/// The last single request was withdrawn.
pub fn create_embed_removed_last_song() -> (r: Embed)
    ensures
        r@ == embed_removed_last_song(),
{
    make_titled(COLOUR_INFO, "Removed last song added to user queue")
}

/// There was no single request to withdraw.
pub fn create_embed_removed_last_song_failed() -> (r: Embed)
    ensures
        r@ == embed_removed_last_song_failed(),
{
    make_note(COLOUR_NOTICE, "Nice.", "No songs in user queue to remove")
}

} // verus!
