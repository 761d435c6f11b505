//! What the bot asks the YouTube Data API and how it reads the answers:
//! request URLs for a search, a video and a playlist page, and the songs
//! found in the JSON replies.

use std::collections::VecDeque;

use vstd::prelude::*;

use crate::json::{as_array, as_array_exec, as_str, as_str_exec, at, at_exec, get, get_exec, Json};
use crate::structs::{Song, SongView};
use crate::text::push_str;

verus! {

/// `s` with every space written as `%20`.
pub open spec fn encode_spaces(s: Seq<char>) -> Seq<char>
    decreases s.len(),
{
    if s.len() == 0 {
        Seq::empty()
    } else {
        encode_spaces(s.drop_last()) + if s.last() == ' ' {
            "%20"@
        } else {
            seq![s.last()]
        }
    }
}

/// Appends `t` to `s` with every space written as `%20`.
fn push_encoded(s: &mut String, t: &str)
    ensures
        final(s)@ == old(s)@ + encode_spaces(t@),
{
    let ghost start = s@;
    let cs = crate::text::chars_of(t);
    let n = cs.len();
    for i in 0..n
        invariant
            n == cs@.len(),
            s@ == start + encode_spaces(cs@.take(i as int)),
    {
        let c = cs[i];
        if c == ' ' {
            push_str(s, "%20");
        } else {
            crate::text::push_char(s, c);
        }
        proof {
            let after = cs@.take(i + 1);
            assert(after.drop_last() =~= cs@.take(i as int));
            assert(after.last() == c);
            assert(s@ =~= start + encode_spaces(after));
        }
    }
    assert(cs@.take(n as int) =~= t@);
}

/// The search request for the single best video match of `q`.
pub open spec fn yt_search_url(q: Seq<char>, key: Seq<char>) -> Seq<char> {
    "https://www.googleapis.com/youtube/v3/search?part=snippet&q="@ + encode_spaces(q)
        + "&maxResults=1&type=video&key="@ + key
}

/// The request for the details of video `id`.
pub open spec fn yt_video_url(id: Seq<char>, key: Seq<char>) -> Seq<char> {
    "https://www.googleapis.com/youtube/v3/videos?part=snippet&id="@ + id + "&key="@ + key
}

/// The request for one page of up to 50 items of playlist `id`.
pub open spec fn yt_playlist_url(page_token: Seq<char>, id: Seq<char>, key: Seq<char>) -> Seq<char> {
    "https://www.googleapis.com/youtube/v3/playlistItems?part=snippet&maxResults=50&pageToken="@ + page_token
        + "&playlistId="@ + id + "&key="@ + key
}

/// Builds the search request for `q`.
pub fn yt_search_request(q: &str, key: &str) -> (r: String)
    ensures
        r@ == yt_search_url(q@, key@),
{
    let mut s = "https://www.googleapis.com/youtube/v3/search?part=snippet&q=".to_owned();
    push_encoded(&mut s, q);
    push_str(&mut s, "&maxResults=1&type=video&key=");
    push_str(&mut s, key);
    s
}

/// Builds the request for the details of video `id`.
pub fn yt_video_request(id: &str, key: &str) -> (r: String)
    ensures
        r@ == yt_video_url(id@, key@),
{
    let mut s = "https://www.googleapis.com/youtube/v3/videos?part=snippet&id=".to_owned();
    push_str(&mut s, id);
    push_str(&mut s, "&key=");
    push_str(&mut s, key);
    s
}

/// Builds the request for the playlist page that `page_token` names.
pub fn yt_playlist_request(page_token: &str, id: &str, key: &str) -> (r: String)
    ensures
        r@ == yt_playlist_url(page_token@, id@, key@),
{
    let mut s = "https://www.googleapis.com/youtube/v3/playlistItems?part=snippet&maxResults=50&pageToken=".to_owned();
    push_str(&mut s, page_token);
    push_str(&mut s, "&playlistId=");
    push_str(&mut s, id);
    push_str(&mut s, "&key=");
    push_str(&mut s, key);
    s
}

/// The view of an optional song.
pub open spec fn song_view_of(r: Option<Song>) -> Option<SongView> {
    match r {
        Some(s) => Some(s@),
        None => None,
    }
}

/// The first search hit: `items[0].id.videoId` and `items[0].snippet.title`.
pub open spec fn yt_search_hit(j: Json) -> Option<SongView> {
    let item = at(get(Some(j), "items"@), 0);
    match (as_str(get(get(item, "id"@), "videoId"@)), as_str(get(get(item, "snippet"@), "title"@))) {
        (Some(id), Some(title)) => Some(SongView { id: Some(id), title }),
        _ => None,
    }
}

/// The title of a looked-up video: `items[0].snippet.title`.
pub open spec fn yt_video_title(j: Json) -> Option<Seq<char>> {
    as_str(get(get(at(get(Some(j), "items"@), 0), "snippet"@), "title"@))
}

/// The song that a search answer names, if it names one.
pub fn yt_search_result(json: &Json) -> (r: Option<Song>)
    ensures
        song_view_of(r) == yt_search_hit(*json),
{
    let item = at_exec(get_exec(Some(json), "items"), 0);
    let id = as_str_exec(get_exec(get_exec(item, "id"), "videoId"));
    let title = as_str_exec(get_exec(get_exec(item, "snippet"), "title"));
    match (id, title) {
        (Some(id), Some(title)) => Some(Song::WithId { id: id.to_owned(), title: title.to_owned() }),
        _ => None,
    }
}

/// The song for video `id`, titled as the video answer says, if it says.
pub fn yt_video_result(json: &Json, id: &str) -> (r: Option<Song>)
    ensures
        song_view_of(r) == match yt_video_title(*json) {
            Some(title) => Some(SongView { id: Some(id@), title }),
            None => None,
        },
{
    let title = as_str_exec(get_exec(get_exec(at_exec(get_exec(Some(json), "items"), 0), "snippet"), "title"));
    match title {
        Some(title) => Some(Song::WithId { id: id.to_owned(), title: title.to_owned() }),
        None => None,
    }
}

/// What to do after reading one page of a paged answer.
#[derive(Debug)]
pub enum PageStep {
    /// An item lacked what the bot needs; the whole listing fails.
    Failed,
    /// Ask for the next page, named by this token or URL.
    Next(String),
    /// That was the last page.
    Done,
}

/// The song a playlist item names: `snippet.resourceId.videoId` and
/// `snippet.title`.
pub open spec fn yt_playlist_item(item: Json) -> Option<SongView> {
    let snippet = get(Some(item), "snippet"@);
    match (as_str(get(get(snippet, "resourceId"@), "videoId"@)), as_str(get(snippet, "title"@))) {
        (Some(id), Some(title)) => Some(SongView { id: Some(id), title }),
        _ => None,
    }
}

/// The songs of a sequence of playlist items, if every item names one.
pub open spec fn yt_playlist_items(items: Seq<Json>) -> Option<Seq<SongView>>
    decreases items.len(),
{
    if items.len() == 0 {
        Some(Seq::empty())
    } else {
        match (yt_playlist_items(items.drop_last()), yt_playlist_item(items.last())) {
            (Some(songs), Some(song)) => Some(songs.push(song)),
            _ => None,
        }
    }
}

/// The songs of one playlist page; a page without an item list has none.
pub open spec fn yt_playlist_page_songs(j: Json) -> Option<Seq<SongView>> {
    match as_array(get(Some(j), "items"@)) {
        Some(items) => yt_playlist_items(items),
        None => Some(Seq::empty()),
    }
}

/// The views of a sequence of songs.
pub open spec fn views(songs: Seq<Song>) -> Seq<SongView> {
    songs.map_values(|s: Song| s@)
}

/// Whether `step` follows the page `j`: the next page token if there is one.
pub open spec fn page_continues(step: PageStep, next: Option<Seq<char>>) -> bool {
    match next {
        Some(t) => step matches PageStep::Next(s) && s@ == t,
        None => step is Done,
    }
}

/// Reads one page of a playlist answer: appends its songs to `list` and
/// tells whether another page follows. When an item lacks its video id or
/// title the listing fails and `list` is left as it was.
pub fn yt_playlist_page(list: &mut VecDeque<Song>, json: &Json) -> (r: PageStep)
    ensures
        match yt_playlist_page_songs(*json) {
            Some(songs) => views(final(list)@) == views(old(list)@) + songs
                && page_continues(r, as_str(get(Some(*json), "nextPageToken"@))),
            None => r is Failed && final(list)@ == old(list)@,
        },
{
    let mut found: VecDeque<Song> = VecDeque::new();
    match as_array_exec(get_exec(Some(json), "items")) {
        Some(items) => {
            let n = items.len();
            for i in 0..n
                invariant
                    n == items@.len(),
                    as_array(get(Some(*json), "items"@)) == Some(items@),
                    list@ == old(list)@,
                    yt_playlist_items(items@.take(i as int)) == Some(views(found@)),
            {
                let item = &items[i];
                let snippet = get_exec(Some(item), "snippet");
                let id = as_str_exec(get_exec(get_exec(snippet, "resourceId"), "videoId"));
                let title = as_str_exec(get_exec(snippet, "title"));
                proof {
                    assert(items@.take(i + 1).drop_last() =~= items@.take(i as int));
                }
                match (id, title) {
                    (Some(id), Some(title)) => {
                        let ghost before = found@;
                        found.push_back(Song::WithId { id: id.to_owned(), title: title.to_owned() });
                        assert(views(found@) =~= views(before).push(found@.last()@));
                    },
                    _ => {
                        proof {
                            lemma_items_fail_on(items@, i as int);
                        }
                        return PageStep::Failed;
                    },
                }
            }
            assert(items@.take(n as int) =~= items@);
        },
        None => {},
    }
    let ghost before = list@;
    list.append(&mut found);
    assert(views(list@) =~= views(before) + yt_playlist_page_songs(*json)->0);
    match as_str_exec(get_exec(Some(json), "nextPageToken")) {
        Some(token) => PageStep::Next(token.to_owned()),
        None => PageStep::Done,
    }
}

proof fn lemma_items_fail_on(items: Seq<Json>, i: int)
    requires
        0 <= i < items.len(),
        yt_playlist_item(items[i]) is None,
    ensures
        yt_playlist_items(items) is None,
    decreases items.len(),
{
    if i < items.len() - 1 {
        lemma_items_fail_on(items.drop_last(), i);
    } else {
        assert(items.last() == items[i]);
    }
}

// ---------------------------------------------------------------------
// Laws of the query encoding
// ---------------------------------------------------------------------

/// What one character becomes in a query: a space is written `%20`, every
/// other character stands for itself.
pub open spec fn encoded_char(c: char) -> Seq<char> {
    if c == ' ' {
        "%20"@
    } else {
        seq![c]
    }
}

/// Encoding works character by character over the whole text: the encoding
/// of two texts one after the other is the encoding of the first followed by
/// that of the second, whatever their lengths.
pub proof fn lemma_encode_spaces_append(a: Seq<char>, b: Seq<char>)
    ensures
        encode_spaces(a + b) == encode_spaces(a) + encode_spaces(b),
    decreases b.len(),
{
    if b.len() == 0 {
        assert(a + b =~= a);
        assert(encode_spaces(b) =~= Seq::<char>::empty());
        assert(encode_spaces(a) + encode_spaces(b) =~= encode_spaces(a));
    } else {
        assert((a + b).drop_last() =~= a + b.drop_last());
        assert((a + b).last() == b.last());
        lemma_encode_spaces_append(a, b.drop_last());
        let tail = if b.last() == ' ' { "%20"@ } else { seq![b.last()] };
        assert(encode_spaces(a) + (encode_spaces(b.drop_last()) + tail)
            =~= (encode_spaces(a) + encode_spaces(b.drop_last())) + tail);
    }
}

/// A single character is encoded as `encoded_char` says.
pub proof fn lemma_encode_spaces_one(c: char)
    ensures
        encode_spaces(seq![c]) == encoded_char(c),
{
    assert(seq![c].drop_last() =~= Seq::<char>::empty());
    assert(encode_spaces(seq![c].drop_last()) == Seq::<char>::empty());
    assert(Seq::<char>::empty() + encoded_char(c) =~= encoded_char(c));
}

/// The encoding keeps every character of the text: it is never shorter
/// than the text, it holds no space, and each character other than a space
/// stands in it.
pub proof fn lemma_encode_spaces_keeps_text(s: Seq<char>)
    ensures
        encode_spaces(s).len() >= s.len(),
        forall|i: int| 0 <= i < encode_spaces(s).len() ==> #[trigger] encode_spaces(s)[i] != ' ',
        s.len() > 0 && s.last() != ' ' ==> encode_spaces(s).last() == s.last(),
        s.len() > 0 && s.last() == ' ' ==> encode_spaces(s).len() >= 3
            && encode_spaces(s).subrange(encode_spaces(s).len() - 3, encode_spaces(s).len() as int) == "%20"@,
    decreases s.len(),
{
    reveal_strlit("%20");
    if s.len() > 0 {
        lemma_encode_spaces_keeps_text(s.drop_last());
        let e = encode_spaces(s);
        let pre = encode_spaces(s.drop_last());
        let tail = if s.last() == ' ' { "%20"@ } else { seq![s.last()] };
        assert(e == pre + tail);
        assert forall|i: int| 0 <= i < e.len() implies #[trigger] e[i] != ' ' by {
            if i < pre.len() {
                assert(e[i] == pre[i]);
            } else {
                assert(e[i] == tail[i - pre.len()]);
            }
        }
        if s.last() == ' ' {
            assert(e.subrange(e.len() - 3, e.len() as int) =~= "%20"@);
        }
    }
}

/// On a playlist page whose items all name a video, every item gives one
/// song: as many songs as items, the k-th song being that of the k-th item.
pub proof fn lemma_every_playlist_item_gives_its_song(items: Seq<Json>)
    requires
        forall|i: int| 0 <= i < items.len() ==> (#[trigger] yt_playlist_item(items[i])) is Some,
    ensures
        yt_playlist_items(items) is Some,
        yt_playlist_items(items)->0.len() == items.len(),
        forall|k: int| 0 <= k < items.len() ==> Some(#[trigger] yt_playlist_items(items)->0[k])
            == yt_playlist_item(items[k]),
    decreases items.len(),
{
    if items.len() > 0 {
        let t = items.drop_last();
        assert forall|i: int| 0 <= i < t.len() implies (#[trigger] yt_playlist_item(t[i])) is Some by {
            assert(t[i] == items[i]);
            assert(yt_playlist_item(items[i]) is Some);
        }
        lemma_every_playlist_item_gives_its_song(t);
        assert(yt_playlist_item(items[items.len() - 1]) is Some);
        assert forall|k: int| 0 <= k < items.len() implies Some(#[trigger] yt_playlist_items(items)->0[k])
            == yt_playlist_item(items[k]) by {
            if k < items.len() - 1 {
                assert(t[k] == items[k]);
                assert(Some(yt_playlist_items(t)->0[k]) == yt_playlist_item(t[k]));
            }
        }
    }
}

} // verus!
