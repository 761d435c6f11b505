//! What the bot asks the Spotify Web API and how it reads the answers:
//! the client-credentials login, the access token's lifetime, request URLs,
//! and the song titles ("artists title") found in track listings.

use std::collections::VecDeque;

use vstd::prelude::*;

use crate::json::{as_array, as_array_exec, as_str, as_str_exec, as_u64, as_u64_exec, get, get_exec, value_of, Json};
use crate::structs::{Song, SongView};
use crate::text::push_str;
use crate::youtube::{page_continues, song_view_of, views, PageStep};

verus! {

// ---------------------------------------------------------------------
// Logging in
// ---------------------------------------------------------------------

/// What `base64_light::base64_encode` makes of a text: the standard Base64
/// encoding, with `=` padding, of its UTF-8 bytes.
pub uninterp spec fn base64_of(text: Seq<char>) -> Seq<char>;

/// Calls `base64_light::base64_encode`. Claimed: the result is
/// `base64_of` of the text, a function of the text alone.
#[verifier::external_body]
fn base64_encode(text: &str) -> (r: String)
    ensures
        r@ == base64_of(text@),
{
    base64_light::base64_encode(text)
}

/// The `Authorization` header value of a client-credentials login, given
/// the Base64 encoding of `id:secret`.
pub fn basic_auth_header(encoded: &str) -> (r: String)
    ensures
        r@ == "Basic "@ + encoded@,
{
    let mut s = "Basic ".to_owned();
    push_str(&mut s, encoded);
    s
}

/// The `Authorization` header value of a client-credentials login.
pub fn spotify_basic_auth(id: &str, secret: &str) -> (r: String)
    ensures
        r@ == "Basic "@ + base64_of(id@ + ":"@ + secret@),
{
    let mut creds = id.to_owned();
    push_str(&mut creds, ":");
    push_str(&mut creds, secret);
    let encoded = base64_encode(creds.as_str());
    basic_auth_header(encoded.as_str())
}

/// The `Authorization` header value of a request made with `token`.
pub fn bearer_auth_header(token: &str) -> (r: String)
    ensures
        r@ == "Bearer "@ + token@,
{
    let mut s = "Bearer ".to_owned();
    push_str(&mut s, token);
    s
}

/// The token and its lifetime in seconds from a login answer
/// (`access_token`, `expires_in`).
pub open spec fn spec_token_answer(j: Json) -> Option<(Seq<char>, u64)> {
    match (as_str(get(Some(j), "access_token"@)), as_u64(get(Some(j), "expires_in"@))) {
        (Some(t), Some(e)) => Some((t, e)),
        _ => None,
    }
}

/// Reads a login answer.
pub fn token_answer(json: &Json) -> (r: Option<(String, u64)>)
    ensures
        match r {
            Some((t, e)) => spec_token_answer(*json) == Some((t@, e)),
            None => spec_token_answer(*json) is None,
        },
{
    let token = as_str_exec(get_exec(Some(json), "access_token"));
    let expires = as_u64_exec(get_exec(Some(json), "expires_in"));
    match (token, expires) {
        (Some(t), Some(e)) => Some((t.to_owned(), e)),
        _ => None,
    }
}

/// An access token and how many seconds it was granted for.
pub struct SpotifyToken {
    pub token: String,
    pub token_expires_in_sec: u64,
}

/// Whether a token granted for `expires_in` seconds, `elapsed` seconds ago,
/// is still worth using: it is not empty and has more than ten seconds left.
pub open spec fn token_still_valid(token: Seq<char>, elapsed: u64, expires_in: u64) -> bool {
    elapsed + 10 < expires_in && token.len() > 0
}

impl SpotifyToken {
    /// The token, if it was obtained `secs_since_refresh` seconds ago and is
    /// still valid. `None` for the elapsed time means that the clock went
    /// back since the token was obtained; the token is not used then.
    pub fn get_valid_token(&self, secs_since_refresh: Option<u64>) -> (r: Option<String>)
        ensures
            match secs_since_refresh {
                Some(elapsed) => if token_still_valid(self.token@, elapsed, self.token_expires_in_sec) {
                    r matches Some(t) && t@ == self.token@
                } else {
                    r is None
                },
                None => r is None,
            },
    {
        match secs_since_refresh {
            Some(elapsed) => {
                if elapsed < self.token_expires_in_sec && self.token_expires_in_sec - elapsed > 10
                    && !self.token.as_str().is_empty() {
                    Some(self.token.clone())
                } else {
                    None
                }
            },
            None => None,
        }
    }
}

/// The credentials of the bot and the token it holds.
pub struct Spotify {
    pub id: String,
    pub secret: String,
    pub token: SpotifyToken,
}

impl Spotify {
    /// Credentials with an empty token, which is renewed on first use.
    pub fn new(id: String, secret: String) -> (r: Spotify)
        ensures
            r.id == id,
            r.secret == secret,
            r.token.token@ == Seq::<char>::empty(),
            r.token.token_expires_in_sec == 0,
    {
        Spotify { id, secret, token: SpotifyToken { token: String::new(), token_expires_in_sec: 0 } }
    }

    /// Stores a token just obtained.
    pub fn store_token(&mut self, token: String, expires_in: u64)
        ensures
            final(self).id == old(self).id,
            final(self).secret == old(self).secret,
            final(self).token.token == token,
            final(self).token.token_expires_in_sec == expires_in,
    {
        self.token = SpotifyToken { token, token_expires_in_sec: expires_in };
    }
}

/// The login request that asks for a new access token with the bot's
/// credentials (the client-credentials grant).
pub struct TokenRequest {
    pub method: String,
    pub url: String,
    pub content_type: String,
    pub authorization: String,
    pub body: String,
}

/// Whether `r` is the login request for the credentials `id` and `secret`:
/// a form-encoded `POST` of `grant_type=client_credentials` to the token
/// endpoint, authorised with `Basic` and the Base64 of `id:secret`.
pub open spec fn is_token_request(r: TokenRequest, id: Seq<char>, secret: Seq<char>) -> bool {
    &&& r.method@ == "POST"@
    &&& r.url@ == "https://accounts.spotify.com/api/token"@
    &&& r.content_type@ == "application/x-www-form-urlencoded"@
    &&& r.authorization@ == "Basic "@ + base64_of(id + ":"@ + secret)
    &&& r.body@ == "grant_type=client_credentials"@
}

/// Builds the login request for the credentials `id` and `secret`.
pub fn token_request(id: &str, secret: &str) -> (r: TokenRequest)
    ensures
        is_token_request(r, id@, secret@),
{
    TokenRequest {
        method: "POST".to_owned(),
        url: "https://accounts.spotify.com/api/token".to_owned(),
        content_type: "application/x-www-form-urlencoded".to_owned(),
        authorization: spotify_basic_auth(id, secret),
        body: "grant_type=client_credentials".to_owned(),
    }
}

/// What to do to get an access token: use the one held, or log in anew.
pub enum TokenStep {
    /// The token held is still valid.
    Use(String),
    /// Send this login request; its answer goes to `receive_token`.
    Fetch(TokenRequest),
}

impl Spotify {
    /// Decides between the token held, when it was obtained
    /// `secs_since_refresh` seconds ago and is still valid, and a new login.
    pub fn token_step(&self, secs_since_refresh: Option<u64>) -> (r: TokenStep)
        ensures
            match r {
                TokenStep::Use(t) => secs_since_refresh matches Some(elapsed)
                    && token_still_valid(self.token.token@, elapsed, self.token.token_expires_in_sec)
                    && t@ == self.token.token@,
                TokenStep::Fetch(req) => !(secs_since_refresh matches Some(elapsed)
                    && token_still_valid(self.token.token@, elapsed, self.token.token_expires_in_sec))
                    && is_token_request(req, self.id@, self.secret@),
            },
    {
        match self.token.get_valid_token(secs_since_refresh) {
            Some(t) => TokenStep::Use(t),
            None => TokenStep::Fetch(token_request(self.id.as_str(), self.secret.as_str())),
        }
    }

    /// Takes the answer to a login request: where it holds a token and its
    /// lifetime, the token is stored and returned; otherwise nothing changes.
    pub fn receive_token(&mut self, answer: &Json) -> (r: Option<String>)
        ensures
            match spec_token_answer(*answer) {
                Some((t, e)) => r matches Some(got) && got@ == t
                    && final(self).id == old(self).id
                    && final(self).secret == old(self).secret
                    && final(self).token.token@ == t
                    && final(self).token.token_expires_in_sec == e,
                None => r is None && *final(self) == *old(self),
            },
    {
        match token_answer(answer) {
            Some((t, e)) => {
                let got = t.clone();
                self.store_token(t, e);
                Some(got)
            },
            None => None,
        }
    }
}

// ---------------------------------------------------------------------
// Requests
// ---------------------------------------------------------------------

/// The first page of up to 50 tracks of album `id`.
pub open spec fn album_tracks_url(id: Seq<char>) -> Seq<char> {
    "https://api.spotify.com/v1/albums/"@ + id + "/tracks?limit=50&offset=0"@
}

/// The first page of up to 100 tracks of playlist `id`.
pub open spec fn playlist_tracks_url(id: Seq<char>) -> Seq<char> {
    "https://api.spotify.com/v1/playlists/"@ + id + "/tracks?limit=100&offset=0"@
}

/// Track `id`.
pub open spec fn track_url(id: Seq<char>) -> Seq<char> {
    "https://api.spotify.com/v1/tracks/"@ + id
}

/// Builds the first album page request.
pub fn album_tracks_request(id: &str) -> (r: String)
    ensures
        r@ == album_tracks_url(id@),
{
    let mut s = "https://api.spotify.com/v1/albums/".to_owned();
    push_str(&mut s, id);
    push_str(&mut s, "/tracks?limit=50&offset=0");
    s
}

/// Builds the first playlist page request.
pub fn playlist_tracks_request(id: &str) -> (r: String)
    ensures
        r@ == playlist_tracks_url(id@),
{
    let mut s = "https://api.spotify.com/v1/playlists/".to_owned();
    push_str(&mut s, id);
    push_str(&mut s, "/tracks?limit=100&offset=0");
    s
}

/// Builds the track request.
pub fn track_request(id: &str) -> (r: String)
    ensures
        r@ == track_url(id@),
{
    let mut s = "https://api.spotify.com/v1/tracks/".to_owned();
    push_str(&mut s, id);
    s
}

// ---------------------------------------------------------------------
// Reading track listings
// ---------------------------------------------------------------------

/// The names of the artists in a list, skipping entries without a name.
pub open spec fn artist_names(artists: Seq<Json>) -> Seq<Seq<char>>
    decreases artists.len(),
{
    if artists.len() == 0 {
        Seq::empty()
    } else {
        let rest = artist_names(artists.drop_last());
        match as_str(get(Some(artists.last()), "name"@)) {
            Some(name) => rest.push(name),
            None => rest,
        }
    }
}

/// The words joined with single spaces.
pub open spec fn join_words(words: Seq<Seq<char>>) -> Seq<char>
    decreases words.len(),
{
    if words.len() == 0 {
        Seq::empty()
    } else if words.len() == 1 {
        words[0]
    } else {
        join_words(words.drop_last()) + " "@ + words.last()
    }
}

/// The title a song is searched for by: the artists' names and then the
/// track name, separated by spaces. Nothing when the artists are not a list.
pub open spec fn spec_track_title(artists: Option<Json>, title: Seq<char>) -> Option<Seq<char>> {
    match as_array(artists) {
        Some(list) => Some(join_words(artist_names(list).push(title))),
        None => None,
    }
}

/// Builds the title a track is searched for by.
pub fn build_track_title(artists: Option<&Json>, title: &str) -> (r: Option<String>)
    ensures
        match r {
            Some(t) => spec_track_title(value_of(artists), title@) == Some(t@),
            None => spec_track_title(value_of(artists), title@) is None,
        },
{
    let list = match as_array_exec(artists) {
        Some(list) => list,
        None => return None,
    };
    let mut out = String::new();
    let mut words: usize = 0;
    let ghost mut names: Seq<Seq<char>> = Seq::empty();
    let n = list.len();
    for i in 0..n
        invariant
            n == list@.len(),
            names == artist_names(list@.take(i as int)),
            words as int == names.len(),
            words <= i,
            out@ == join_words(names),
    {
        proof {
            assert(list@.take(i + 1).drop_last() =~= list@.take(i as int));
            assert(list@.take(i + 1).last() == list@[i as int]);
        }
        match as_str_exec(get_exec(Some(&list[i]), "name")) {
            Some(name) => {
                if words > 0 {
                    push_str(&mut out, " ");
                }
                push_str(&mut out, name);
                proof {
                    let next = names.push(name@);
                    assert(next.drop_last() =~= names);
                    if words == 0 {
                        assert(out@ =~= join_words(next));
                    } else {
                        assert(out@ =~= join_words(next));
                    }
                    names = next;
                }
                words = words + 1;
            },
            None => {},
        }
    }
    if words > 0 {
        push_str(&mut out, " ");
    }
    push_str(&mut out, title);
    proof {
        assert(list@.take(n as int) =~= list@);
        let all = names.push(title@);
        assert(all.drop_last() =~= names);
        assert(out@ =~= join_words(all));
    }
    Some(out)
}

/// The song a track object names, by its search title.
pub open spec fn spotify_track_song(track: Option<Json>) -> Option<SongView> {
    match as_str(get(track, "name"@)) {
        Some(name) => match spec_track_title(get(track, "artists"@), name) {
            Some(title) => Some(SongView { id: None, title }),
            None => None,
        },
        None => None,
    }
}

/// The songs of the items of a listing page. Album items are tracks;
/// playlist items hold their track under `track`.
pub open spec fn spotify_items(items: Seq<Json>, in_playlist: bool) -> Option<Seq<SongView>>
    decreases items.len(),
{
    if items.len() == 0 {
        Some(Seq::empty())
    } else {
        let item = if in_playlist {
            get(Some(items.last()), "track"@)
        } else {
            Some(items.last())
        };
        match (spotify_items(items.drop_last(), in_playlist), spotify_track_song(item)) {
            (Some(songs), Some(song)) => Some(songs.push(song)),
            _ => None,
        }
    }
}

/// The songs of a listing page, if it has an item list and every item names
/// a song.
pub open spec fn spotify_page_songs(j: Json, in_playlist: bool) -> Option<Seq<SongView>> {
    match as_array(get(Some(j), "items"@)) {
        Some(items) => spotify_items(items, in_playlist),
        None => None,
    }
}

fn track_song(track: Option<&Json>) -> (r: Option<Song>)
    ensures
        song_view_of(r) == spotify_track_song(value_of(track)),
{
    let name = match as_str_exec(get_exec(track, "name")) {
        Some(name) => name,
        None => return None,
    };
    match build_track_title(get_exec(track, "artists"), name) {
        Some(title) => Some(Song::NoId { title }),
        None => None,
    }
}

proof fn lemma_spotify_items_fail_on(items: Seq<Json>, in_playlist: bool, i: int)
    requires
        0 <= i < items.len(),
        spotify_track_song(if in_playlist { get(Some(items[i]), "track"@) } else { Some(items[i]) }) is None,
    ensures
        spotify_items(items, in_playlist) is None,
    decreases items.len(),
{
    if i < items.len() - 1 {
        lemma_spotify_items_fail_on(items.drop_last(), in_playlist, i);
    } else {
        assert(items.last() == items[i]);
    }
}

/// Reads one page of an album (`in_playlist` false) or playlist track
/// listing: appends its songs to `list` and tells whether another page (the
/// URL under `next`) follows. A page without an item list, or with an item
/// that lacks its name or artist list, fails the listing and leaves `list`
/// as it was.
pub fn spotify_tracks_page(list: &mut VecDeque<Song>, json: &Json, in_playlist: bool) -> (r: PageStep)
    ensures
        match spotify_page_songs(*json, in_playlist) {
            Some(songs) => views(final(list)@) == views(old(list)@) + songs
                && page_continues(r, as_str(get(Some(*json), "next"@))),
            None => r is Failed && final(list)@ == old(list)@,
        },
{
    let items = match as_array_exec(get_exec(Some(json), "items")) {
        Some(items) => items,
        None => return PageStep::Failed,
    };
    let mut found: VecDeque<Song> = VecDeque::new();
    let n = items.len();
    for i in 0..n
        invariant
            n == items@.len(),
            as_array(get(Some(*json), "items"@)) == Some(items@),
            list@ == old(list)@,
            spotify_items(items@.take(i as int), in_playlist) == Some(views(found@)),
    {
        let item = if in_playlist {
            get_exec(Some(&items[i]), "track")
        } else {
            Some(&items[i])
        };
        proof {
            assert(items@.take(i + 1).drop_last() =~= items@.take(i as int));
            assert(items@.take(i + 1).last() == items@[i as int]);
        }
        match track_song(item) {
            Some(song) => {
                let ghost before = found@;
                found.push_back(song);
                assert(views(found@) =~= views(before).push(found@.last()@));
            },
            None => {
                proof {
                    lemma_spotify_items_fail_on(items@, in_playlist, i as int);
                }
                return PageStep::Failed;
            },
        }
    }
    assert(items@.take(n as int) =~= items@);
    let ghost before = list@;
    list.append(&mut found);
    assert(views(list@) =~= views(before) + spotify_page_songs(*json, in_playlist)->0);
    match as_str_exec(get_exec(Some(json), "next")) {
        Some(next) => PageStep::Next(next.to_owned()),
        None => PageStep::Done,
    }
}

/// The song a track answer names, by its search title.
pub fn spotify_track_result(json: &Json) -> (r: Option<Song>)
    ensures
        song_view_of(r) == spotify_track_song(Some(*json)),
{
    track_song(Some(json))
}

// ---------------------------------------------------------------------
// Laws of the track listings
// ---------------------------------------------------------------------

/// The name of an artist entry, if it has one.
pub open spec fn artist_name(artist: Json) -> Option<Seq<char>> {
    as_str(get(Some(artist), "name"@))
}

/// The names of the artists of two lists one after the other are the names
/// of the first list followed by those of the second: no name is dropped,
/// added or moved, however long the lists are.
pub proof fn lemma_artist_names_append(a: Seq<Json>, b: Seq<Json>)
    ensures
        artist_names(a + b) == artist_names(a) + artist_names(b),
    decreases b.len(),
{
    if b.len() == 0 {
        assert(a + b =~= a);
        assert(artist_names(a) + artist_names(b) =~= artist_names(a));
    } else {
        assert((a + b).drop_last() =~= a + b.drop_last());
        assert((a + b).last() == b.last());
        lemma_artist_names_append(a, b.drop_last());
        match artist_name(b.last()) {
            Some(n) => {
                assert(artist_names(a) + artist_names(b.drop_last()).push(n)
                    =~= (artist_names(a) + artist_names(b.drop_last())).push(n));
            },
            None => {},
        }
    }
}

/// When every artist has a name, the names are all of them, one per artist,
/// in the order of the list.
pub proof fn lemma_artist_names_all_named(a: Seq<Json>)
    requires
        forall|i: int| 0 <= i < a.len() ==> (#[trigger] artist_name(a[i])) is Some,
    ensures
        artist_names(a).len() == a.len(),
        forall|i: int| 0 <= i < a.len() ==> Some(#[trigger] artist_names(a)[i]) == artist_name(a[i]),
    decreases a.len(),
{
    if a.len() > 0 {
        let t = a.drop_last();
        assert forall|i: int| 0 <= i < t.len() implies (#[trigger] artist_name(t[i])) is Some by {
            assert(t[i] == a[i]);
            assert(artist_name(a[i]) is Some);
        }
        lemma_artist_names_all_named(t);
        assert(artist_name(a[a.len() - 1]) is Some);
        assert forall|i: int| 0 <= i < a.len() implies Some(#[trigger] artist_names(a)[i]) == artist_name(a[i]) by {
            if i < a.len() - 1 {
                assert(t[i] == a[i]);
                assert(Some(artist_names(t)[i]) == artist_name(t[i]));
            }
        }
    }
}

/// Every word of a list occurs, whole, in the words joined with spaces.
pub proof fn lemma_join_words_keeps_every_word(words: Seq<Seq<char>>, i: int)
    requires
        0 <= i < words.len(),
    ensures
        exists|p: int| 0 <= p && p + words[i].len() <= join_words(words).len()
            && #[trigger] join_words(words).subrange(p, p + words[i].len()) == words[i],
    decreases words.len(),
{
    let j = join_words(words);
    if words.len() == 1 {
        assert(j == words[0]);
        assert(j.subrange(0, words[i].len() as int) =~= words[i]);
        assert(join_words(words).subrange(0, 0 + words[i].len() as int) == words[i]);
    } else if i == words.len() - 1 {
        assert(j == join_words(words.drop_last()) + " "@ + words.last());
        let p = j.len() - words[i].len();
        assert(j.subrange(p, p + words[i].len()) =~= words[i]);
        assert(join_words(words).subrange(p, p + words[i].len()) == words[i]);
    } else {
        let t = words.drop_last();
        assert(t[i] == words[i]);
        lemma_join_words_keeps_every_word(t, i);
        let jt = join_words(t);
        let p = choose|p: int| 0 <= p && p + t[i].len() <= jt.len()
            && #[trigger] jt.subrange(p, p + t[i].len()) == t[i];
        assert(j == jt + " "@ + words.last());
        assert(j.subrange(p, p + words[i].len()) =~= jt.subrange(p, p + t[i].len()));
        assert(join_words(words).subrange(p, p + words[i].len()) == words[i]);
    }
}

/// Whether `w` occurs, whole, in `t`.
pub open spec fn occurs_in(w: Seq<char>, t: Seq<char>) -> bool {
    exists|p: int| 0 <= p && p + w.len() <= t.len() && #[trigger] t.subrange(p, p + w.len()) == w
}

/// The search text of a track names every artist that has a name, and the
/// track: when the artists are a list, the name of each named artist in it
/// occurs whole in the text, and so does the track name.
pub proof fn lemma_track_title_names_every_artist(artists: Option<Json>, list: Seq<Json>, title: Seq<char>, i: int)
    requires
        as_array(artists) == Some(list),
        0 <= i < list.len(),
        artist_name(list[i]) is Some,
    ensures
        spec_track_title(artists, title) is Some,
        occurs_in(artist_name(list[i])->0, spec_track_title(artists, title)->0),
        occurs_in(title, spec_track_title(artists, title)->0),
{
    let pre = list.subrange(0, i);
    let one = seq![list[i]];
    let post = list.subrange(i + 1, list.len() as int);
    assert(list =~= pre + one + post);
    lemma_artist_names_append(pre + one, post);
    lemma_artist_names_append(pre, one);
    assert(one.drop_last() =~= Seq::<Json>::empty());
    assert(artist_names(one.drop_last()) == Seq::<Seq<char>>::empty());
    assert(one.last() == list[i]);
    let k = artist_names(pre).len() as int;
    assert(artist_names(one) =~= seq![artist_name(list[i])->0]);
    assert(artist_names(list)[k] == artist_name(list[i])->0);
    let words = artist_names(list).push(title);
    assert(words[k] == artist_name(list[i])->0);
    lemma_join_words_keeps_every_word(words, k);
    lemma_join_words_keeps_every_word(words, words.len() - 1);
}

/// The item of a listing page that holds the track: the item itself on an
/// album page, its `track` field on a playlist page.
pub open spec fn item_track(item: Json, in_playlist: bool) -> Option<Json> {
    if in_playlist {
        get(Some(item), "track"@)
    } else {
        Some(item)
    }
}

/// On a page whose items all name a song, every item gives one song: as
/// many songs as items, the k-th song being the song of the k-th item.
pub proof fn lemma_every_item_gives_its_song(items: Seq<Json>, in_playlist: bool)
    requires
        forall|i: int| 0 <= i < items.len() ==> (#[trigger] spotify_track_song(item_track(items[i], in_playlist))) is Some,
    ensures
        spotify_items(items, in_playlist) is Some,
        spotify_items(items, in_playlist)->0.len() == items.len(),
        forall|k: int| 0 <= k < items.len() ==> Some(#[trigger] spotify_items(items, in_playlist)->0[k])
            == spotify_track_song(item_track(items[k], in_playlist)),
    decreases items.len(),
{
    if items.len() > 0 {
        let t = items.drop_last();
        assert forall|i: int| 0 <= i < t.len() implies (#[trigger] spotify_track_song(item_track(t[i], in_playlist))) is Some by {
            assert(t[i] == items[i]);
            assert(spotify_track_song(item_track(items[i], in_playlist)) is Some);
        }
        lemma_every_item_gives_its_song(t, in_playlist);
        assert(spotify_track_song(item_track(items[items.len() - 1], in_playlist)) is Some);
        assert(item_track(items.last(), in_playlist) == (if in_playlist {
            get(Some(items.last()), "track"@)
        } else {
            Some(items.last())
        }));
        assert forall|k: int| 0 <= k < items.len() implies Some(#[trigger] spotify_items(items, in_playlist)->0[k])
            == spotify_track_song(item_track(items[k], in_playlist)) by {
            if k < items.len() - 1 {
                assert(t[k] == items[k]);
                assert(Some(spotify_items(t, in_playlist)->0[k]) == spotify_track_song(item_track(t[k], in_playlist)));
            }
        }
    }
}

} // verus!
