//! Recognises what a `/play` query refers to: a YouTube video, a YouTube
//! playlist, a Spotify track, playlist or album, or free text to search for.
//!
//! Each recogniser is the grammar of one kind of link, stated as a spec
//! function over the query's characters and implemented by a scan that is
//! proved to pick the same match.

use vstd::prelude::*;

use crate::structs::{PlayRequest, PlayRequestView};
use crate::text::{chars_of, occurs_at, occurs_at_exec, push_str, string_of_range};

verus! {

// ---------------------------------------------------------------------
// Character classes
// ---------------------------------------------------------------------

/// `[A-Za-z0-9]`
pub open spec fn is_alnum(c: char) -> bool {
    ('0' <= c && c <= '9') || ('A' <= c && c <= 'Z') || ('a' <= c && c <= 'z')
}

/// `\w`: ASCII letters, digits and `_`.
pub open spec fn is_word_char(c: char) -> bool {
    is_alnum(c) || c == '_'
}

/// `[A-Za-z0-9_-]`: the characters of a playlist id.
pub open spec fn is_list_char(c: char) -> bool {
    is_alnum(c) || c == '_' || c == '-'
}

/// `[^#&?]`: the characters of a video id.
pub open spec fn is_video_id_char(c: char) -> bool {
    c != '#' && c != '&' && c != '?'
}

fn alnum(c: char) -> (r: bool)
    ensures
        r == is_alnum(c),
{
    ('0' <= c && c <= '9') || ('A' <= c && c <= 'Z') || ('a' <= c && c <= 'z')
}

// ---------------------------------------------------------------------
// YouTube video ids
// ---------------------------------------------------------------------

/// The literal markers that may stand before a video id, in the order in
/// which they are tried. Marker 5 is `u/`, one word character and `/`; its
/// literal part is `u/`.
pub open spec fn video_marker(k: int) -> Seq<char> {
    if k == 0 {
        "m.youtu.be/"@
    } else if k == 1 {
        "youtu.be/"@
    } else if k == 2 {
        "e/"@
    } else if k == 3 {
        "vi/"@
    } else if k == 4 {
        "v/"@
    } else if k == 5 {
        "u/"@
    } else if k == 6 {
        "embed/"@
    } else if k == 7 {
        "?vi="@
    } else if k == 8 {
        "?v="@
    } else if k == 9 {
        "&vi="@
    } else {
        "&v="@
    }
}

/// Where marker `k` ends when it occurs at `p`.
pub open spec fn video_marker_end(s: Seq<char>, p: int, k: int) -> Option<int> {
    if k == 5 {
        if occurs_at(s, p, "u/"@) && p + 3 < s.len() && is_word_char(s[p + 2]) && s[p + 3] == '/' {
            Some(p + 4)
        } else {
            None
        }
    } else if occurs_at(s, p, video_marker(k)) {
        Some(p + video_marker(k).len())
    } else {
        None
    }
}

/// Whether a video id (eleven characters of `[^#&?]`) starts at `q`.
pub open spec fn video_id_at(s: Seq<char>, q: int) -> bool {
    0 <= q && q + 11 <= s.len() && forall|i: int| q <= i < q + 11 ==> is_video_id_char(#[trigger] s[i])
}

/// Trying the markers from `k` on at `p`: where the video id starts after the
/// first marker that occurs at `p` and is followed by a video id.
pub open spec fn video_id_start_from(s: Seq<char>, p: int, k: int) -> Option<int>
    decreases 11 - k,
{
    if k < 0 || k >= 11 {
        None
    } else {
        match video_marker_end(s, p, k) {
            Some(q) if video_id_at(s, q) => Some(q),
            _ => video_id_start_from(s, p, k + 1),
        }
    }
}

/// Whether no line break occurs before `p`.
pub open spec fn no_line_break_before(s: Seq<char>, p: int) -> bool {
    forall|i: int| 0 <= i < p ==> s[i] != '\n'
}

/// Scanning marker positions from `p` down to 0: where the video id starts
/// for the last position, on the first line and outside the locale part of
/// a localized Spotify link, at which a marker and an id follow.
pub open spec fn video_id_start_down(s: Seq<char>, p: int) -> Option<int>
    decreases p + 1,
{
    if p < 0 {
        None
    } else if no_line_break_before(s, p) && !in_spotify_locale(s, p) && video_id_start_from(s, p, 0) is Some {
        video_id_start_from(s, p, 0)
    } else {
        video_id_start_down(s, p - 1)
    }
}

/// The video id that a YouTube link in `s` names, as
/// `^.*((m\.)?youtu\.be/|e/|vi?/|u/\w/|embed/|\?vi?=|\&vi?=)([^#\&\?]{11}).*`
/// captures it in its third group: the greedy `.*` makes the last marker on
/// the first line win. A marker inside the `spotify.com/intl-<locale>/` part
/// of a localized Spotify link does not count, so such a link is never read
/// as a YouTube video.
pub open spec fn spec_yt_id(s: Seq<char>) -> Option<Seq<char>> {
    match video_id_start_down(s, s.len() as int) {
        Some(q) => Some(s.subrange(q, q + 11)),
        None => None,
    }
}

proof fn lemma_video_id_start_from(s: Seq<char>, p: int, k: int)
    ensures
        video_id_start_from(s, p, k) matches Some(q) ==> video_id_at(s, q),
    decreases 11 - k,
{
    if 0 <= k < 11 {
        lemma_video_id_start_from(s, p, k + 1);
    }
}

fn video_marker_chars(k: usize) -> (v: Vec<char>)
    requires
        k < 11,
    ensures
        v@ == video_marker(k as int),
{
    if k == 0 {
        chars_of("m.youtu.be/")
    } else if k == 1 {
        chars_of("youtu.be/")
    } else if k == 2 {
        chars_of("e/")
    } else if k == 3 {
        chars_of("vi/")
    } else if k == 4 {
        chars_of("v/")
    } else if k == 5 {
        chars_of("u/")
    } else if k == 6 {
        chars_of("embed/")
    } else if k == 7 {
        chars_of("?vi=")
    } else if k == 8 {
        chars_of("?v=")
    } else if k == 9 {
        chars_of("&vi=")
    } else {
        chars_of("&v=")
    }
}

fn video_id_at_exec(s: &Vec<char>, q: usize) -> (r: bool)
    ensures
        r == video_id_at(s@, q as int),
{
    let n = s.len();
    if q > n || n - q < 11 {
        return false;
    }
    for i in 0..11
        invariant
            n == s@.len(),
            q + 11 <= n,
            forall|j: int| q <= j < q + i ==> is_video_id_char(#[trigger] s@[j]),
    {
        let c = s[q + i];
        if c == '#' || c == '&' || c == '?' {
            assert(!is_video_id_char(s@[q + i]));
            return false;
        }
    }
    true
}

fn video_marker_end_exec(s: &Vec<char>, p: usize, k: usize, markers: &Vec<Vec<char>>) -> (r: Option<usize>)
    requires
        k < 11,
        markers@.len() == 11,
        forall|j: int| 0 <= j < 11 ==> (#[trigger] markers@[j])@ == video_marker(j),
    ensures
        match r {
            Some(q) => video_marker_end(s@, p as int, k as int) == Some(q as int),
            None => video_marker_end(s@, p as int, k as int) is None,
        },
{
    let n = s.len();
    let m = &markers[k];
    assert(m@ == video_marker(k as int));
    if !occurs_at_exec(s, p, m) {
        return None;
    }
    if k == 5 {
        if p < n && n - p > 3 && (alnum(s[p + 2]) || s[p + 2] == '_') && s[p + 3] == '/' {
            Some(p + 4)
        } else {
            None
        }
    } else {
        Some(p + m.len())
    }
}

fn video_id_start_exec(s: &Vec<char>, p: usize, markers: &Vec<Vec<char>>) -> (r: Option<usize>)
    requires
        markers@.len() == 11,
        forall|j: int| 0 <= j < 11 ==> (#[trigger] markers@[j])@ == video_marker(j),
    ensures
        match r {
            Some(q) => video_id_start_from(s@, p as int, 0) == Some(q as int) && video_id_at(s@, q as int),
            None => video_id_start_from(s@, p as int, 0) is None,
        },
{
    proof {
        lemma_video_id_start_from(s@, p as int, 0);
    }
    let mut k: usize = 0;
    while k < 11
        invariant
            k <= 11,
            markers@.len() == 11,
            forall|j: int| 0 <= j < 11 ==> (#[trigger] markers@[j])@ == video_marker(j),
            video_id_start_from(s@, p as int, 0) == video_id_start_from(s@, p as int, k as int),
        decreases 11 - k,
    {
        match video_marker_end_exec(s, p, k, markers) {
            Some(q) => {
                if video_id_at_exec(s, q) {
                    return Some(q);
                }
            },
            None => {},
        }
        k = k + 1;
    }
    None
}

/// The video id in a YouTube link, if the query holds one.
pub fn yt_id_extract(input: &str) -> (r: Option<String>)
    ensures
        match r {
            Some(id) => spec_yt_id(input@) == Some(id@),
            None => spec_yt_id(input@) is None,
        },
{
    let s = chars_of(input);
    let n = s.len();
    let mut markers: Vec<Vec<char>> = Vec::new();
    for k in 0..11
        invariant
            markers@.len() == k,
            forall|j: int| 0 <= j < k ==> (#[trigger] markers@[j])@ == video_marker(j),
    {
        markers.push(video_marker_chars(k));
    }
    // The first line break bounds where the marker may stand.
    let intl = chars_of("spotify.com/intl-");
    let mut lim: usize = 0;
    while lim < n && s[lim] != '\n'
        invariant
            lim <= n == s@.len(),
            no_line_break_before(s@, lim as int),
        decreases n - lim,
    {
        lim = lim + 1;
    }
    let mut p: usize = n;
    loop
        invariant
            p <= n == s@.len(),
            s@ == input@,
            lim <= n,
            no_line_break_before(s@, lim as int),
            lim < n ==> s@[lim as int] == '\n',
            intl@ == "spotify.com/intl-"@,
            markers@.len() == 11,
            forall|j: int| 0 <= j < 11 ==> (#[trigger] markers@[j])@ == video_marker(j),
            video_id_start_down(s@, n as int) == video_id_start_down(s@, p as int),
        decreases p,
    {
        let free = p <= lim;
        assert(free == no_line_break_before(s@, p as int));
        if free && !in_spotify_locale_exec(&s, p, &intl) {
            match video_id_start_exec(&s, p, &markers) {
                Some(q) => {
                    return Some(string_of_range(&s, q, q + 11));
                },
                None => {},
            }
        }
        if p == 0 {
            assert(video_id_start_down(s@, -1) is None);
            return None;
        }
        p = p - 1;
    }
}


// ---------------------------------------------------------------------
// YouTube playlist ids
// ---------------------------------------------------------------------

/// Number of playlist-id characters starting at `q`, counting at most `cap`.
pub open spec fn list_run(s: Seq<char>, q: int, cap: int) -> int
    decreases cap,
{
    if cap <= 0 || q < 0 || q >= s.len() || !is_list_char(s[q]) {
        0
    } else {
        1 + list_run(s, q + 1, cap - 1)
    }
}

/// Whether `list=` followed by at least 34 playlist-id characters starts at `p`.
pub open spec fn list_match_at(s: Seq<char>, p: int) -> bool {
    occurs_at(s, p, "list="@) && list_run(s, p + "list="@.len(), 41) >= 34
}

/// The first position from `p` on at which a playlist link part starts.
pub open spec fn list_start_up(s: Seq<char>, p: int) -> Option<int>
    decreases s.len() + 1 - p,
{
    if p < 0 || p > s.len() {
        None
    } else if list_match_at(s, p) {
        Some(p)
    } else {
        list_start_up(s, p + 1)
    }
}

/// The playlist id that `list=([A-Za-z0-9_-]{34,41})` captures in `s`: the
/// leftmost `list=` followed by at least 34 id characters, taking as many of
/// them as there are, up to 41.
pub open spec fn spec_yt_list(s: Seq<char>) -> Option<Seq<char>> {
    match list_start_up(s, 0) {
        Some(p) => {
            let q = p + "list="@.len();
            Some(s.subrange(q, q + list_run(s, q, 41)))
        },
        None => None,
    }
}

fn list_run_exec(s: &Vec<char>, q: usize, cap: usize) -> (r: usize)
    ensures
        r as int == list_run(s@, q as int, cap as int),
        r <= cap,
        r as int + q as int <= s@.len() || r == 0,
{
    let n = s.len();
    let mut i: usize = 0;
    while i < cap && q < n && n - q > i
        invariant
            n == s@.len(),
            i <= cap,
            i > 0 ==> q + i <= n,
            list_run(s@, q as int, cap as int) == i + list_run(s@, q + i, cap - i),
        ensures
            list_run(s@, q as int, cap as int) == i,
            i <= cap,
            i > 0 ==> q + i <= n,
        decreases cap - i,
    {
        let c = s[q + i];
        if !(alnum(c) || c == '_' || c == '-') {
            break;
        }
        i = i + 1;
    }
    i
}

/// The playlist id in a YouTube link, if the query holds one.
pub fn yt_list_extract(input: &str) -> (r: Option<String>)
    ensures
        match r {
            Some(id) => spec_yt_list(input@) == Some(id@),
            None => spec_yt_list(input@) is None,
        },
{
    let s = chars_of(input);
    let lit = chars_of("list=");
    let n = s.len();
    let mut p: usize = 0;
    while p <= n
        invariant
            n == s@.len(),
            s@ == input@,
            lit@ == "list="@,
            list_start_up(s@, 0) == list_start_up(s@, p as int),
        decreases n + 1 - p,
    {
        if occurs_at_exec(&s, p, &lit) {
            let q = p + lit.len();
            let run = list_run_exec(&s, q, 41);
            if run >= 34 {
                return Some(string_of_range(&s, q, q + run));
            }
        }
        if p == n {
            assert(list_start_up(s@, n + 1) is None);
            return None;
        }
        p = p + 1;
    }
    None
}

// ---------------------------------------------------------------------
// Spotify ids
// ---------------------------------------------------------------------

/// Whether `n` characters of `[A-Za-z0-9]` start at `q`.
pub open spec fn alnum_run_at(s: Seq<char>, q: int, n: int) -> bool {
    0 <= q && q + n <= s.len() && forall|i: int| q <= i < q + n ==> is_alnum(#[trigger] s[i])
}

/// The web address prefix of a Spotify link to an item of `kind` (such as
/// `track/`).
pub open spec fn spotify_url(kind: Seq<char>) -> Seq<char> {
    "spotify.com/"@ + kind
}

/// Where the locale part of a localized Spotify web link that starts at `m`
/// ends: the position of the `/` that closes `spotify.com/intl-<locale>`,
/// the locale being one or more characters of `[A-Za-z0-9_-]`.
pub open spec fn locale_slash(s: Seq<char>, m: int) -> Option<int> {
    let q = m + "spotify.com/intl-"@.len();
    let n = list_run(s, q, s.len() - q);
    if occurs_at(s, m, "spotify.com/intl-"@) && n > 0 && q + n < s.len() && s[q + n] == '/' {
        Some(q + n)
    } else {
        None
    }
}

/// Whether position `p` lies in the `spotify.com/intl-<locale>/` part of a
/// localized Spotify web link. Such a part is no place for a YouTube marker:
/// the `e/` that ends `intl-de/` is not one.
pub open spec fn in_spotify_locale(s: Seq<char>, p: int) -> bool {
    exists|m: int| 0 <= m <= p && #[trigger] locale_slash(s, m) is Some && p <= locale_slash(s, m)->0
}

/// Where the id starts when a localized Spotify link to an item of `kind`,
/// such as `spotify.com/intl-de/track/` followed by a 22-character id,
/// stands at `p`.
pub open spec fn localized_id_start(s: Seq<char>, p: int, kind: Seq<char>) -> Option<int> {
    match locale_slash(s, p) {
        Some(e) => if occurs_at(s, e + 1, kind) && alnum_run_at(s, e + 1 + kind.len(), 22) {
            Some(e + 1 + kind.len())
        } else {
            None
        },
        None => None,
    }
}

/// Where the id starts when a Spotify reference to an item of `kind`
/// followed by a 22-character id stands at `p`: the URI prefix `uri`, else
/// the web link, else the localized web link.
pub open spec fn spotify_id_start_at(s: Seq<char>, p: int, uri: Seq<char>, kind: Seq<char>) -> Option<int> {
    if occurs_at(s, p, uri) && alnum_run_at(s, p + uri.len(), 22) {
        Some(p + uri.len())
    } else if occurs_at(s, p, spotify_url(kind)) && alnum_run_at(s, p + spotify_url(kind).len(), 22) {
        Some(p + spotify_url(kind).len())
    } else {
        localized_id_start(s, p, kind)
    }
}

/// The first position from `p` on at which a Spotify reference starts.
pub open spec fn spotify_id_start_up(s: Seq<char>, p: int, uri: Seq<char>, kind: Seq<char>) -> Option<int>
    decreases s.len() + 1 - p,
{
    if p < 0 || p > s.len() {
        None
    } else if spotify_id_start_at(s, p, uri, kind) is Some {
        spotify_id_start_at(s, p, uri, kind)
    } else {
        spotify_id_start_up(s, p + 1, uri, kind)
    }
}

/// The id of the leftmost Spotify reference to an item of `kind` in `s`:
/// the 22 characters after the leftmost URI prefix, web link prefix
/// (`spotify.com/<kind>`) or localized web link prefix
/// (`spotify.com/intl-<locale>/<kind>`) that is followed by them. Without
/// the localized form this is what `(?:<uri>|spotify\.com/<kind>)([A-Za-z0-9]{22})`
/// captures.
pub open spec fn spec_spotify_id(s: Seq<char>, uri: Seq<char>, kind: Seq<char>) -> Option<Seq<char>> {
    match spotify_id_start_up(s, 0, uri, kind) {
        Some(q) => Some(s.subrange(q, q + 22)),
        None => None,
    }
}

/// The id in a Spotify track URI or URL.
pub open spec fn spec_spotify_track(s: Seq<char>) -> Option<Seq<char>> {
    spec_spotify_id(s, "spotify:track:"@, "track/"@)
}

/// The id in a Spotify playlist URI or URL.
pub open spec fn spec_spotify_playlist(s: Seq<char>) -> Option<Seq<char>> {
    spec_spotify_id(s, "spotify:playlist:"@, "playlist/"@)
}

/// The id in a Spotify album URI or URL.
pub open spec fn spec_spotify_album(s: Seq<char>) -> Option<Seq<char>> {
    spec_spotify_id(s, "spotify:album:"@, "album/"@)
}

fn alnum_run_exec(s: &Vec<char>, q: usize, k: usize) -> (r: bool)
    ensures
        r == alnum_run_at(s@, q as int, k as int),
{
    let n = s.len();
    if q > n || n - q < k {
        return false;
    }
    for i in 0..k
        invariant
            n == s@.len(),
            q + k <= n,
            forall|j: int| q <= j < q + i ==> is_alnum(#[trigger] s@[j]),
    {
        if !alnum(s[q + i]) {
            assert(!is_alnum(s@[q + i]));
            return false;
        }
    }
    true
}

fn locale_slash_exec(s: &Vec<char>, m: usize, intl: &Vec<char>) -> (r: Option<usize>)
    requires
        intl@ == "spotify.com/intl-"@,
    ensures
        r matches Some(e) ==> locale_slash(s@, m as int) == Some(e as int) && e < s@.len(),
        r is None ==> locale_slash(s@, m as int) is None,
{
    let n = s.len();
    if !occurs_at_exec(s, m, intl) {
        return None;
    }
    let q = m + intl.len();
    let run = list_run_exec(s, q, n - q);
    if run == 0 || run >= n - q {
        return None;
    }
    if s[q + run] != '/' {
        return None;
    }
    Some(q + run)
}

fn localized_id_start_exec(s: &Vec<char>, p: usize, intl: &Vec<char>, kind: &Vec<char>) -> (r: Option<usize>)
    requires
        intl@ == "spotify.com/intl-"@,
    ensures
        r matches Some(q) ==> localized_id_start(s@, p as int, kind@) == Some(q as int),
        r is None ==> localized_id_start(s@, p as int, kind@) is None,
{
    let n = s.len();
    match locale_slash_exec(s, p, intl) {
        Some(e) => {
            let k = e + 1;
            if occurs_at_exec(s, k, kind) {
                assert(k + kind@.len() <= n);
                if alnum_run_exec(s, k + kind.len(), 22) {
                    return Some(k + kind.len());
                }
            }
            None
        },
        None => None,
    }
}

/// Whether `p` lies in the locale part of a localized Spotify web link.
fn in_spotify_locale_exec(s: &Vec<char>, p: usize, intl: &Vec<char>) -> (r: bool)
    requires
        intl@ == "spotify.com/intl-"@,
    ensures
        r == in_spotify_locale(s@, p as int),
{
    for m in 0..p
        invariant
            intl@ == "spotify.com/intl-"@,
            forall|j: int| 0 <= j < m ==> !(#[trigger] locale_slash(s@, j) is Some && p <= locale_slash(s@, j)->0),
    {
        if let Some(e) = locale_slash_exec(s, m, intl) {
            if p <= e {
                return true;
            }
        }
    }
    if let Some(e) = locale_slash_exec(s, p, intl) {
        if p <= e {
            return true;
        }
    }
    assert forall|j: int| 0 <= j <= p implies !(#[trigger] locale_slash(s@, j) is Some && p <= locale_slash(s@, j)->0) by {
        if j == p {
        }
    }
    false
}

fn spotify_id_start_exec(
    s: &Vec<char>,
    p: usize,
    uri: &Vec<char>,
    url: &Vec<char>,
    intl: &Vec<char>,
    kind: &Vec<char>,
) -> (r: Option<usize>)
    requires
        intl@ == "spotify.com/intl-"@,
        url@ == spotify_url(kind@),
    ensures
        r matches Some(q) ==> spotify_id_start_at(s@, p as int, uri@, kind@) == Some(q as int),
        r is None ==> spotify_id_start_at(s@, p as int, uri@, kind@) is None,
{
    let n = s.len();
    if occurs_at_exec(s, p, uri) {
        assert(p + uri@.len() <= n);
        if alnum_run_exec(s, p + uri.len(), 22) {
            return Some(p + uri.len());
        }
    }
    if occurs_at_exec(s, p, url) {
        assert(p + url@.len() <= n);
        if alnum_run_exec(s, p + url.len(), 22) {
            return Some(p + url.len());
        }
    }
    localized_id_start_exec(s, p, intl, kind)
}

fn spotify_id_extract(input: &str, uri: &str, kind: &str) -> (r: Option<String>)
    ensures
        match r {
            Some(id) => spec_spotify_id(input@, uri@, kind@) == Some(id@),
            None => spec_spotify_id(input@, uri@, kind@) is None,
        },
{
    let s = chars_of(input);
    let a = chars_of(uri);
    let k = chars_of(kind);
    let mut url_text = "spotify.com/".to_owned();
    push_str(&mut url_text, kind);
    let b = chars_of(url_text.as_str());
    let intl = chars_of("spotify.com/intl-");
    let n = s.len();
    let mut p: usize = 0;
    while p <= n
        invariant
            n == s@.len(),
            s@ == input@,
            a@ == uri@,
            k@ == kind@,
            b@ == spotify_url(kind@),
            intl@ == "spotify.com/intl-"@,
            spotify_id_start_up(s@, 0, uri@, kind@) == spotify_id_start_up(s@, p as int, uri@, kind@),
        decreases n + 1 - p,
    {
        if let Some(q) = spotify_id_start_exec(&s, p, &a, &b, &intl, &k) {
            return Some(string_of_range(&s, q, q + 22));
        }
        if p == n {
            assert(spotify_id_start_up(s@, n + 1, uri@, kind@) is None);
            return None;
        }
        p = p + 1;
    }
    None
}

/// The track id in a Spotify track URI or URL, if the query holds one.
pub fn spotify_track_extract(input: &str) -> (r: Option<String>)
    ensures
        match r {
            Some(id) => spec_spotify_track(input@) == Some(id@),
            None => spec_spotify_track(input@) is None,
        },
{
    spotify_id_extract(input, "spotify:track:", "track/")
}

/// The playlist id in a Spotify playlist URI or URL, if the query holds one.
pub fn spotify_playlist_extract(input: &str) -> (r: Option<String>)
    ensures
        match r {
            Some(id) => spec_spotify_playlist(input@) == Some(id@),
            None => spec_spotify_playlist(input@) is None,
        },
{
    spotify_id_extract(input, "spotify:playlist:", "playlist/")
}

/// The album id in a Spotify album URI or URL, if the query holds one.
pub fn spotify_album_extract(input: &str) -> (r: Option<String>)
    ensures
        match r {
            Some(id) => spec_spotify_album(input@) == Some(id@),
            None => spec_spotify_album(input@) is None,
        },
{
    spotify_id_extract(input, "spotify:album:", "album/")
}

// ---------------------------------------------------------------------
// Classifying a query
// ---------------------------------------------------------------------

/// What a query asks for. A YouTube video link wins over everything else and
/// takes a playlist along when the link also names one; then a YouTube
/// playlist, a Spotify track, a Spotify playlist and a Spotify album are
/// tried in turn; anything else is searched for as it stands. A localized
/// Spotify link (`open.spotify.com/intl-de/track/..`) reaches the Spotify
/// tests because its locale part holds no YouTube marker.
pub open spec fn spec_parse_source(s: Seq<char>) -> PlayRequestView {
    match spec_yt_id(s) {
        Some(video) => match spec_yt_list(s) {
            Some(playlist) => PlayRequestView::YouTubeVideoAndPlaylist { video, playlist },
            None => PlayRequestView::YouTubeVideo(video),
        },
        None => match spec_yt_list(s) {
            Some(playlist) => PlayRequestView::YouTubePlaylist(playlist),
            None => match spec_spotify_track(s) {
                Some(t) => PlayRequestView::SpotifyTrack(t),
                None => match spec_spotify_playlist(s) {
                    Some(p) => PlayRequestView::SpotifyPlaylist(p),
                    None => match spec_spotify_album(s) {
                        Some(a) => PlayRequestView::SpotifyAlbum(a),
                        None => PlayRequestView::Search(s),
                    },
                },
            },
        },
    }
}

/// Classifies a `/play` query.
pub fn parse_source(input: &str) -> (r: PlayRequest)
    ensures
        r@ == spec_parse_source(input@),
{
    if let Some(video) = yt_id_extract(input) {
        if let Some(playlist) = yt_list_extract(input) {
            return PlayRequest::YouTubeVideoAndPlaylist { video, playlist };
        }
        return PlayRequest::YouTubeVideo(video);
    }
    if let Some(playlist) = yt_list_extract(input) {
        return PlayRequest::YouTubePlaylist(playlist);
    }
    if let Some(track) = spotify_track_extract(input) {
        return PlayRequest::SpotifyTrack(track);
    }
    if let Some(playlist) = spotify_playlist_extract(input) {
        return PlayRequest::SpotifyPlaylist(playlist);
    }
    if let Some(album) = spotify_album_extract(input) {
        return PlayRequest::SpotifyAlbum(album);
    }
    PlayRequest::Search(input.to_owned())
}

// ---------------------------------------------------------------------
// What the recognisers promise about the ids they return
// ---------------------------------------------------------------------

/// A well-formed video id: eleven characters, none of `#`, `&`, `?`.
pub open spec fn is_video_id(id: Seq<char>) -> bool {
    id.len() == 11 && forall|i: int| 0 <= i < id.len() ==> is_video_id_char(#[trigger] id[i])
}

/// A well-formed playlist id: 34 to 41 characters of `[A-Za-z0-9_-]`.
pub open spec fn is_playlist_id(id: Seq<char>) -> bool {
    34 <= id.len() <= 41 && forall|i: int| 0 <= i < id.len() ==> is_list_char(#[trigger] id[i])
}

/// A well-formed Spotify id: 22 characters of `[A-Za-z0-9]`.
pub open spec fn is_spotify_id(id: Seq<char>) -> bool {
    id.len() == 22 && forall|i: int| 0 <= i < id.len() ==> is_alnum(#[trigger] id[i])
}

/// Whether `id` stands somewhere in `s`.
pub open spec fn is_part_of(id: Seq<char>, s: Seq<char>) -> bool {
    exists|q: int| 0 <= q && q + id.len() <= s.len() && #[trigger] s.subrange(q, q + id.len()) == id
}

proof fn lemma_video_id_start_down(s: Seq<char>, p: int)
    ensures
        video_id_start_down(s, p) matches Some(q) ==> video_id_at(s, q),
    decreases p + 1,
{
    lemma_video_id_start_from(s, p, 0);
    if p >= 0 {
        lemma_video_id_start_down(s, p - 1);
    }
}

proof fn lemma_list_run(s: Seq<char>, q: int, cap: int)
    ensures
        0 <= list_run(s, q, cap),
        cap >= 0 ==> list_run(s, q, cap) <= cap,
        list_run(s, q, cap) > 0 ==> 0 <= q && q + list_run(s, q, cap) <= s.len(),
        forall|i: int| q <= i < q + list_run(s, q, cap) ==> is_list_char(#[trigger] s[i]),
    decreases cap,
{
    if !(cap <= 0 || q < 0 || q >= s.len() || !is_list_char(s[q])) {
        lemma_list_run(s, q + 1, cap - 1);
    }
}

proof fn lemma_list_start_up(s: Seq<char>, p: int)
    ensures
        list_start_up(s, p) matches Some(m) ==> list_match_at(s, m),
    decreases s.len() + 1 - p,
{
    if 0 <= p <= s.len() && !list_match_at(s, p) {
        lemma_list_start_up(s, p + 1);
    }
}

proof fn lemma_spotify_id_start_up(s: Seq<char>, p: int, uri: Seq<char>, kind: Seq<char>)
    ensures
        spotify_id_start_up(s, p, uri, kind) matches Some(q) ==> alnum_run_at(s, q, 22),
    decreases s.len() + 1 - p,
{
    if 0 <= p <= s.len() && spotify_id_start_at(s, p, uri, kind) is None {
        lemma_spotify_id_start_up(s, p + 1, uri, kind);
    }
}

/// A video id found in a query is a well-formed id that stands in the query.
pub proof fn lemma_yt_id_well_formed(s: Seq<char>)
    ensures
        spec_yt_id(s) matches Some(id) ==> is_video_id(id) && is_part_of(id, s),
{
    lemma_video_id_start_down(s, s.len() as int);
    if let Some(q) = video_id_start_down(s, s.len() as int) {
        let id = s.subrange(q, q + 11);
        assert forall|i: int| 0 <= i < id.len() implies is_video_id_char(#[trigger] id[i]) by {
            assert(id[i] == s[q + i]);
        }
        assert(s.subrange(q, q + id.len()) == id);
    }
}

/// A playlist id found in a query is a well-formed id that stands in the
/// query.
pub proof fn lemma_yt_list_well_formed(s: Seq<char>)
    ensures
        spec_yt_list(s) matches Some(id) ==> is_playlist_id(id) && is_part_of(id, s),
{
    lemma_list_start_up(s, 0);
    if let Some(p) = list_start_up(s, 0) {
        let q = p + "list="@.len();
        lemma_list_run(s, q, 41);
        let id = s.subrange(q, q + list_run(s, q, 41));
        assert forall|i: int| 0 <= i < id.len() implies is_list_char(#[trigger] id[i]) by {
            assert(id[i] == s[q + i]);
        }
        assert(s.subrange(q, q + id.len()) == id);
    }
}

/// An id found after a Spotify prefix is a well-formed id that stands in the
/// query.
pub proof fn lemma_spotify_id_well_formed(s: Seq<char>, uri: Seq<char>, kind: Seq<char>)
    ensures
        spec_spotify_id(s, uri, kind) matches Some(id) ==> is_spotify_id(id) && is_part_of(id, s),
{
    lemma_spotify_id_start_up(s, 0, uri, kind);
    if let Some(q) = spotify_id_start_up(s, 0, uri, kind) {
        let id = s.subrange(q, q + 22);
        assert forall|i: int| 0 <= i < id.len() implies is_alnum(#[trigger] id[i]) by {
            assert(id[i] == s[q + i]);
        }
        assert(s.subrange(q, q + id.len()) == id);
    }
}

/// Every id that a classified query carries is well formed for its kind and
/// stands in the query, and a query that is searched for is searched for
/// exactly as it was typed.
pub proof fn lemma_parse_source_well_formed(s: Seq<char>)
    ensures
        match spec_parse_source(s) {
            PlayRequestView::Search(q) => q == s,
            PlayRequestView::YouTubeVideo(v) => is_video_id(v) && is_part_of(v, s),
            PlayRequestView::YouTubePlaylist(l) => is_playlist_id(l) && is_part_of(l, s),
            PlayRequestView::YouTubeVideoAndPlaylist { video, playlist } =>
                is_video_id(video) && is_part_of(video, s) && is_playlist_id(playlist) && is_part_of(playlist, s),
            PlayRequestView::SpotifyTrack(t) => is_spotify_id(t) && is_part_of(t, s),
            PlayRequestView::SpotifyPlaylist(p) => is_spotify_id(p) && is_part_of(p, s),
            PlayRequestView::SpotifyAlbum(a) => is_spotify_id(a) && is_part_of(a, s),
        },
{
    lemma_yt_id_well_formed(s);
    lemma_yt_list_well_formed(s);
    lemma_spotify_id_well_formed(s, "spotify:track:"@, "track/"@);
    lemma_spotify_id_well_formed(s, "spotify:playlist:"@, "playlist/"@);
    lemma_spotify_id_well_formed(s, "spotify:album:"@, "album/"@);
}

proof fn lemma_video_id_start_down_complete(s: Seq<char>, p: int, q: int)
    requires
        0 <= q <= p,
        no_line_break_before(s, q),
        !in_spotify_locale(s, q),
        video_id_start_from(s, q, 0) is Some,
    ensures
        video_id_start_down(s, p) is Some,
    decreases p + 1,
{
    if p > q && !(no_line_break_before(s, p) && !in_spotify_locale(s, p) && video_id_start_from(s, p, 0) is Some) {
        lemma_video_id_start_down_complete(s, p - 1, q);
    }
}

/// No YouTube video link on the first line goes unnoticed: when a marker
/// followed by a video id stands at `p` on the first line of the query,
/// outside the locale part of a localized Spotify link, a video id is found
/// (the one after the last such marker).
pub proof fn lemma_yt_id_complete(s: Seq<char>, p: int)
    requires
        0 <= p <= s.len(),
        no_line_break_before(s, p),
        !in_spotify_locale(s, p),
        video_id_start_from(s, p, 0) is Some,
    ensures
        spec_yt_id(s) is Some,
{
    lemma_video_id_start_down_complete(s, s.len() as int, p);
}

proof fn lemma_list_start_up_complete(s: Seq<char>, from: int, p: int)
    requires
        0 <= from <= p <= s.len(),
        list_match_at(s, p),
    ensures
        list_start_up(s, from) matches Some(m) && from <= m <= p,
    decreases p - from,
{
    if !list_match_at(s, from) {
        lemma_list_start_up_complete(s, from + 1, p);
    }
}

/// No playlist link goes unnoticed: when `list=` and at least 34 playlist-id
/// characters stand at `p`, a playlist id is found, from that link or one
/// further left.
pub proof fn lemma_yt_list_complete(s: Seq<char>, p: int)
    requires
        0 <= p <= s.len(),
        list_match_at(s, p),
    ensures
        spec_yt_list(s) is Some,
        list_start_up(s, 0) matches Some(m) && m <= p,
{
    lemma_list_start_up_complete(s, 0, p);
}

proof fn lemma_spotify_id_start_up_complete(s: Seq<char>, from: int, p: int, uri: Seq<char>, kind: Seq<char>)
    requires
        0 <= from <= p <= s.len(),
        spotify_id_start_at(s, p, uri, kind) is Some,
    ensures
        spotify_id_start_up(s, from, uri, kind) is Some,
    decreases p - from,
{
    if spotify_id_start_at(s, from, uri, kind) is None {
        lemma_spotify_id_start_up_complete(s, from + 1, p, uri, kind);
    }
}

/// No Spotify reference goes unnoticed: when the URI or URL prefix and a
/// 22-character id stand at `p`, an id is found.
pub proof fn lemma_spotify_id_complete(s: Seq<char>, p: int, uri: Seq<char>, kind: Seq<char>)
    requires
        0 <= p <= s.len(),
        spotify_id_start_at(s, p, uri, kind) is Some,
    ensures
        spec_spotify_id(s, uri, kind) is Some,
{
    lemma_spotify_id_start_up_complete(s, 0, p, uri, kind);
}

/// No video id is read from a marker inside the locale part of a
/// localized Spotify link: the scan passes over such a position.
pub proof fn lemma_locale_markers_ignored(s: Seq<char>, p: int)
    requires
        0 <= p,
        in_spotify_locale(s, p),
    ensures
        video_id_start_down(s, p) == video_id_start_down(s, p - 1),
{
}

/// A query with a Spotify track link (or URI) and no YouTube video or
/// playlist link is a Spotify track request for the first such track.
pub proof fn lemma_spotify_track_link_is_a_track(s: Seq<char>, p: int)
    requires
        0 <= p <= s.len(),
        spotify_id_start_at(s, p, "spotify:track:"@, "track/"@) is Some,
        spec_yt_id(s) is None,
        spec_yt_list(s) is None,
    ensures
        spec_parse_source(s) == PlayRequestView::SpotifyTrack(spec_spotify_track(s)->0),
{
    lemma_spotify_id_complete(s, p, "spotify:track:"@, "track/"@);
}

/// The same for Spotify playlists and albums: with no YouTube video or
/// playlist link in the query, such a link gives a Spotify request.
pub proof fn lemma_spotify_list_link_is_spotify(s: Seq<char>, p: int)
    requires
        0 <= p <= s.len(),
        spotify_id_start_at(s, p, "spotify:playlist:"@, "playlist/"@) is Some
            || spotify_id_start_at(s, p, "spotify:album:"@, "album/"@) is Some,
        spec_yt_id(s) is None,
        spec_yt_list(s) is None,
    ensures
        spec_parse_source(s) is SpotifyTrack || spec_parse_source(s) is SpotifyPlaylist
            || spec_parse_source(s) is SpotifyAlbum,
{
    if spotify_id_start_at(s, p, "spotify:playlist:"@, "playlist/"@) is Some {
        lemma_spotify_id_complete(s, p, "spotify:playlist:"@, "playlist/"@);
    } else {
        lemma_spotify_id_complete(s, p, "spotify:album:"@, "album/"@);
    }
}

} // verus!
