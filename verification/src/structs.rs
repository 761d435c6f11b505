//! The data the bot keeps: songs, play requests and the per-server queues.

use std::collections::VecDeque;

use rand::seq::SliceRandom;

use vstd::prelude::*;

use crate::text::same_text;

verus! {

/// A song in a queue: either already resolved to a YouTube video id, or only
/// known by a title that still has to be searched for.
#[derive(Clone, Debug)]
pub enum Song {
    NoId { title: String },
    WithId { id: String, title: String },
}

/// The abstract value of a song: its optional id and its title.
pub struct SongView {
    pub id: Option<Seq<char>>,
    pub title: Seq<char>,
}

impl View for Song {
    type V = SongView;

    open spec fn view(&self) -> SongView {
        match self {
            Song::NoId { title } => SongView { id: None, title: title@ },
            Song::WithId { id, title } => SongView { id: Some(id@), title: title@ },
        }
    }
}

impl Song {
    /// The title of the song.
    pub fn title(&self) -> (t: &str)
        ensures
            t@ == self@.title,
    {
        match self {
            Song::NoId { title } => title.as_str(),
            Song::WithId { title, .. } => title.as_str(),
        }
    }

    /// The YouTube video id of the song, where it is known.
    pub fn id(&self) -> (r: Option<&str>)
        ensures
            match r {
                Some(i) => self@.id == Some(i@),
                None => self@.id is None,
            },
    {
        match self {
            Song::NoId { .. } => None,
            Song::WithId { id, .. } => Some(id.as_str()),
        }
    }

    /// A song equal to this one.
    pub fn duplicate(&self) -> (r: Song)
        ensures
            r == *self,
    {
        match self {
            Song::NoId { title } => Song::NoId { title: title.clone() },
            Song::WithId { id, title } => Song::WithId { id: id.clone(), title: title.clone() },
        }
    }

    /// Whether two songs carry the same optional id.
    pub fn same_id(&self, other: &Song) -> (r: bool)
        ensures
            r == (self@.id == other@.id),
    {
        match (self.id(), other.id()) {
            (Some(a), Some(b)) => same_text(a, b),
            (None, None) => true,
            _ => false,
        }
    }
}

/// What a `/play` query asks for.
#[derive(Debug)]
pub enum PlayRequest {
    Search(String),
    YouTubeVideo(String),
    YouTubePlaylist(String),
    YouTubeVideoAndPlaylist { video: String, playlist: String },
    SpotifyTrack(String),
    SpotifyPlaylist(String),
    SpotifyAlbum(String),
}

/// The abstract value of a play request.
pub enum PlayRequestView {
    Search(Seq<char>),
    YouTubeVideo(Seq<char>),
    YouTubePlaylist(Seq<char>),
    YouTubeVideoAndPlaylist { video: Seq<char>, playlist: Seq<char> },
    SpotifyTrack(Seq<char>),
    SpotifyPlaylist(Seq<char>),
    SpotifyAlbum(Seq<char>),
}

impl View for PlayRequest {
    type V = PlayRequestView;

    open spec fn view(&self) -> PlayRequestView {
        match self {
            PlayRequest::Search(q) => PlayRequestView::Search(q@),
            PlayRequest::YouTubeVideo(v) => PlayRequestView::YouTubeVideo(v@),
            PlayRequest::YouTubePlaylist(l) => PlayRequestView::YouTubePlaylist(l@),
            PlayRequest::YouTubeVideoAndPlaylist { video, playlist } =>
                PlayRequestView::YouTubeVideoAndPlaylist { video: video@, playlist: playlist@ },
            PlayRequest::SpotifyTrack(t) => PlayRequestView::SpotifyTrack(t@),
            PlayRequest::SpotifyPlaylist(p) => PlayRequestView::SpotifyPlaylist(p@),
            PlayRequest::SpotifyAlbum(a) => PlayRequestView::SpotifyAlbum(a@),
        }
    }
}

/// What the audio player of a server is doing.
#[derive(Debug)]
pub enum AudioHandlerState {
    Idle,
    BetweenSongs { past_song: Song },
    CurrentSong { song: Song },
}

impl AudioHandlerState {
    /// The song that is playing now, if any.
    pub fn song(&self) -> (r: Option<Song>)
        ensures
            match self {
                AudioHandlerState::CurrentSong { song } => r == Some(*song),
                _ => r is None,
            },
    {
        match self {
            AudioHandlerState::CurrentSong { song } => Some(song.duplicate()),
            _ => None,
        }
    }

    /// Whether nothing is playing nor about to play.
    pub fn is_idle(&self) -> (r: bool)
        ensures
            r == (*self is Idle),
    {
        match self {
            AudioHandlerState::Idle => true,
            _ => false,
        }
    }
}

/// The state kept for one server: the queue of single songs that users asked
/// for, the queue of songs that came from playlists and albums, and what the
/// player is doing. Single requests are always played before playlist songs.
pub struct ServerProps {
    request_queue: VecDeque<Song>,
    playlist_queue: VecDeque<Song>,
    audio_state: AudioHandlerState,
}

/// The abstract value of a server's state.
pub struct ServerPropsView {
    pub requests: Seq<Song>,
    pub playlist: Seq<Song>,
    pub state: AudioHandlerState,
}

impl View for ServerProps {
    type V = ServerPropsView;

    closed spec fn view(&self) -> ServerPropsView {
        ServerPropsView {
            requests: self.request_queue@,
            playlist: self.playlist_queue@,
            state: self.audio_state,
        }
    }
}

/// Whether the state keeps its promise: a song that is playing was resolved
/// to a video id.
pub open spec fn props_wf(v: ServerPropsView) -> bool {
    v.state matches AudioHandlerState::CurrentSong { song } ==> song@.id is Some
}

impl ServerPropsView {
    /// The first song that would be played next and the state after taking
    /// it: the oldest single request if there is one, else the oldest
    /// playlist song.
    pub open spec fn pop_next(self) -> (Option<Song>, ServerPropsView) {
        if self.requests.len() > 0 {
            (Some(self.requests[0]), ServerPropsView { requests: self.requests.drop_first(), ..self })
        } else if self.playlist.len() > 0 {
            (Some(self.playlist[0]), ServerPropsView { playlist: self.playlist.drop_first(), ..self })
        } else {
            (None, self)
        }
    }

    /// The state after a user asked for one more song.
    pub open spec fn add_request(self, song: Song) -> ServerPropsView {
        ServerPropsView { requests: self.requests.push(song), ..self }
    }

    /// The state after the last single request was withdrawn, and that request.
    pub open spec fn remove_last_request(self) -> (Option<Song>, ServerPropsView) {
        if self.requests.len() > 0 {
            (Some(self.requests.last()), ServerPropsView { requests: self.requests.drop_last(), ..self })
        } else {
            (None, self)
        }
    }

    /// The state after the songs of a playlist were appended to the playlist
    /// queue.
    pub open spec fn add_list(self, list: Seq<Song>) -> ServerPropsView {
        ServerPropsView { playlist: self.playlist + list, ..self }
    }

    /// Whether anything is queued or playing.
    pub open spec fn has_content(self) -> bool {
        self.requests.len() > 0 || self.playlist.len() > 0 || !(self.state is Idle)
    }

    /// The state with both queues emptied and the player idle.
    pub open spec fn cleared(self) -> ServerPropsView {
        ServerPropsView { requests: Seq::empty(), playlist: Seq::empty(), state: AudioHandlerState::Idle }
    }

    /// Whether `other` differs from this state only in the order of the
    /// playlist songs.
    pub open spec fn same_but_playlist_order(self, other: ServerPropsView) -> bool {
        other.requests == self.requests && other.state == self.state
            && other.playlist.to_multiset() == self.playlist.to_multiset()
            && other.playlist.len() == self.playlist.len()
    }
}

/// The songs of `list`, in order, without those whose id is `id`.
pub open spec fn without_id(list: Seq<Song>, id: Option<Seq<char>>) -> Seq<Song>
    decreases list.len(),
{
    if list.len() == 0 {
        Seq::empty()
    } else if list[0]@.id == id {
        without_id(list.drop_first(), id)
    } else {
        seq![list[0]] + without_id(list.drop_first(), id)
    }
}

proof fn lemma_without_id_first(list: Seq<Song>, id: Option<Seq<char>>)
    requires
        list.len() > 0,
    ensures
        without_id(list, id) == if list[0]@.id == id {
            without_id(list.subrange(1, list.len() as int), id)
        } else {
            seq![list[0]] + without_id(list.subrange(1, list.len() as int), id)
        },
{
    assert(list.drop_first() =~= list.subrange(1, list.len() as int));
}

/// Shuffles `v` in place with the thread-local generator: `make_contiguous`
/// and then rand's `SliceRandom::shuffle`, a Fisher-Yates shuffle made of
/// swaps. What is claimed: the same elements come out, in some order.
#[verifier::external_body]
fn shuffle_deque<T>(v: &mut VecDeque<T>)
    ensures
        final(v)@.len() == old(v)@.len(),
        final(v)@.to_multiset() == old(v)@.to_multiset(),
{
    v.make_contiguous().shuffle(&mut rand::rng());
}

impl ServerProps {
    #[verifier::type_invariant]
    closed spec fn wf(self) -> bool {
        props_wf(self@)
    }

    /// A server with empty queues and nothing playing.
    pub fn new() -> (r: ServerProps)
        ensures
            r@.requests == Seq::<Song>::empty(),
            r@.playlist == Seq::<Song>::empty(),
            r@.state is Idle,
    {
        ServerProps {
            request_queue: VecDeque::new(),
            playlist_queue: VecDeque::new(),
            audio_state: AudioHandlerState::Idle,
        }
    }

    /// The queue of single requests, oldest first.
    pub fn request_queue(&self) -> (r: &VecDeque<Song>)
        ensures
            r@ == self@.requests,
    {
        &self.request_queue
    }

    /// The queue of playlist songs, next first.
    pub fn playlist_queue(&self) -> (r: &VecDeque<Song>)
        ensures
            r@ == self@.playlist,
    {
        &self.playlist_queue
    }

    /// What the player is doing.
    pub fn audio_state(&self) -> (r: &AudioHandlerState)
        ensures
            *r == self@.state,
            props_wf(self@),
    {
        proof {
            use_type_invariant(self);
        }
        &self.audio_state
    }

    /// Puts the playlist queue in a random order.
    pub fn playlist_queue_shuffle(&mut self)
        ensures
            old(self)@.same_but_playlist_order(final(self)@),
    {
        proof {
            use_type_invariant(&*self);
        }
        let mut q: VecDeque<Song> = VecDeque::new();
        std::mem::swap(&mut q, &mut self.playlist_queue);
        shuffle_deque(&mut q);
        self.playlist_queue = q;
    }

    /// Takes the song to play next: the oldest single request, or, when there
    /// is none, the next playlist song.
    pub fn pop_next_song(&mut self) -> (r: Option<Song>)
        ensures
            (r, final(self)@) == old(self)@.pop_next(),
    {
        proof {
            use_type_invariant(&*self);
        }
        let mut req: VecDeque<Song> = VecDeque::new();
        std::mem::swap(&mut req, &mut self.request_queue);
        let first = req.pop_front();
        self.request_queue = req;
        match first {
            Some(song) => {
                assert(self@.requests =~= old(self)@.requests.drop_first());
                Some(song)
            },
            None => {
                let mut pl: VecDeque<Song> = VecDeque::new();
                std::mem::swap(&mut pl, &mut self.playlist_queue);
                let next = pl.pop_front();
                self.playlist_queue = pl;
                proof {
                    if next is Some {
                        assert(self@.playlist =~= old(self)@.playlist.drop_first());
                    }
                }
                next
            },
        }
    }

    /// Queues one song that a user asked for. Returns whether something is
    /// already playing or about to play, and the new lengths of the request
    /// and playlist queues.
    pub fn add_single_song(&mut self, song: Song) -> (r: (bool, usize, usize))
        ensures
            final(self)@ == old(self)@.add_request(song),
            r.0 == !(old(self)@.state is Idle),
            r.1 == final(self)@.requests.len(),
            r.2 == final(self)@.playlist.len(),
    {
        proof {
            use_type_invariant(&*self);
        }
        let mut req: VecDeque<Song> = VecDeque::new();
        std::mem::swap(&mut req, &mut self.request_queue);
        req.push_back(song);
        self.request_queue = req;
        let playing = !self.audio_state.is_idle();
        (playing, self.request_queue.len(), self.playlist_queue.len())
    }

    /// Adds the songs of a playlist or album to the playlist queue and
    /// shuffles that queue. Returns the new lengths of the request and
    /// playlist queues.
    pub fn add_playlist(&mut self, list: VecDeque<Song>) -> (r: (usize, usize))
        ensures
            old(self)@.add_list(list@).same_but_playlist_order(final(self)@),
            r.0 == final(self)@.requests.len(),
            r.1 == final(self)@.playlist.len(),
    {
        proof {
            use_type_invariant(&*self);
        }
        let mut list = list;
        let mut pl: VecDeque<Song> = VecDeque::new();
        std::mem::swap(&mut pl, &mut self.playlist_queue);
        pl.append(&mut list);
        self.playlist_queue = pl;
        self.playlist_queue_shuffle();
        (self.request_queue.len(), self.playlist_queue.len())
    }

    /// Queues a video that was linked together with its playlist: the video
    /// goes to the request queue, the rest of the playlist (without the
    /// video) to the playlist queue, which is then shuffled. Returns how many
    /// playlist songs were added and the new lengths of both queues.
    pub fn add_video_and_playlist(&mut self, song: Song, list: VecDeque<Song>) -> (r: (usize, usize, usize))
        ensures
            old(self)@.add_request(song).add_list(without_id(list@, song@.id)).same_but_playlist_order(final(self)@),
            r.0 == without_id(list@, song@.id).len(),
            r.1 == final(self)@.requests.len(),
            r.2 == final(self)@.playlist.len(),
    {
        proof {
            use_type_invariant(&*self);
        }
        let mut list = list;
        let mut kept: VecDeque<Song> = VecDeque::new();
        let ghost whole = list@;
        let mut n: usize = list.len();
        while n > 0
            invariant
                n == list@.len(),
                kept@ + without_id(list@, song@.id) == without_id(whole, song@.id),
            decreases n,
        {
            let ghost rest = list@;
            let next = list.pop_front();
            match next {
                Some(s) => {
                    proof {
                        lemma_without_id_first(rest, song@.id);
                    }
                    if !s.same_id(&song) {
                        kept.push_back(s);
                        assert(kept@ + without_id(list@, song@.id) =~= without_id(whole, song@.id));
                    }
                },
                None => {},
            }
            n = n - 1;
        }
        let added = kept.len();
        let mut req: VecDeque<Song> = VecDeque::new();
        std::mem::swap(&mut req, &mut self.request_queue);
        req.push_back(song);
        self.request_queue = req;
        let mut pl: VecDeque<Song> = VecDeque::new();
        std::mem::swap(&mut pl, &mut self.playlist_queue);
        pl.append(&mut kept);
        self.playlist_queue = pl;
        self.playlist_queue_shuffle();
        (added, self.request_queue.len(), self.playlist_queue.len())
    }

    /// Withdraws the most recent single request.
    pub fn remove_last_request(&mut self) -> (r: Option<Song>)
        ensures
            (r, final(self)@) == old(self)@.remove_last_request(),
    {
        proof {
            use_type_invariant(&*self);
        }
        let mut req: VecDeque<Song> = VecDeque::new();
        std::mem::swap(&mut req, &mut self.request_queue);
        let last = req.pop_back();
        self.request_queue = req;
        proof {
            if last is Some {
                assert(self@.requests =~= old(self)@.requests.drop_last());
            }
        }
        last
    }

    /// Marks `song` as the one now playing.
    pub fn start_song(&mut self, song: Song)
        requires
            song@.id is Some,
        ensures
            final(self)@ == (ServerPropsView { state: AudioHandlerState::CurrentSong { song }, ..old(self)@ }),
    {
        self.audio_state = AudioHandlerState::CurrentSong { song };
    }
}

/// Empties both queues of a server and marks its player idle (the caller
/// stops the track and leaves the voice channel). `left_voice_channel` tells
/// whether the bot has just left a voice channel; the result is whether
/// nothing at all changed.
pub fn reset_serprops(props: &mut ServerProps, left_voice_channel: bool) -> (unchanged: bool)
    ensures
        final(props)@ == old(props)@.cleared(),
        unchanged == (!old(props)@.has_content() && !left_voice_channel),
{
    proof {
        use_type_invariant(&*props);
    }
    let has_content = props.request_queue.len() > 0 || props.playlist_queue.len() > 0
        || !props.audio_state.is_idle();
    props.request_queue = VecDeque::new();
    props.playlist_queue = VecDeque::new();
    props.audio_state = AudioHandlerState::Idle;
    !has_content && !left_voice_channel
}

// ---------------------------------------------------------------------
// Laws of the queue system
// ---------------------------------------------------------------------

/// The songs that `k` successive takes from `v` play, in order.
pub open spec fn play_order(v: ServerPropsView, k: nat) -> Seq<Song>
    decreases k,
{
    if k == 0 {
        Seq::empty()
    } else {
        match v.pop_next() {
            (Some(song), rest) => seq![song] + play_order(rest, (k - 1) as nat),
            (None, _) => Seq::empty(),
        }
    }
}

proof fn lemma_play_order_playlist(v: ServerPropsView)
    requires
        v.requests.len() == 0,
    ensures
        play_order(v, v.playlist.len()) == v.playlist,
    decreases v.playlist.len(),
{
    if v.playlist.len() > 0 {
        let rest = v.pop_next().1;
        lemma_play_order_playlist(rest);
        assert(seq![v.playlist[0]] + rest.playlist =~= v.playlist);
    }
}

/// Single requests take priority over playlists and albums: taking songs
/// one after the other plays every queued single request, oldest first,
/// before the first playlist song, and then the playlist queue in its order.
pub proof fn lemma_requests_before_playlist(v: ServerPropsView)
    ensures
        play_order(v, v.requests.len() + v.playlist.len()) == v.requests + v.playlist,
    decreases v.requests.len(),
{
    if v.requests.len() == 0 {
        lemma_play_order_playlist(v);
        assert(v.requests + v.playlist =~= v.playlist);
    } else {
        let rest = v.pop_next().1;
        lemma_requests_before_playlist(rest);
        assert((v.requests.len() + v.playlist.len() - 1) as nat == rest.requests.len() + rest.playlist.len());
        assert(seq![v.requests[0]] + (rest.requests + rest.playlist) =~= v.requests + v.playlist);
    }
}

/// Withdrawing the last request right after adding a song gives that song
/// back and leaves the state as it was.
pub proof fn lemma_remove_undoes_add(v: ServerPropsView, song: Song)
    ensures
        v.add_request(song).remove_last_request() == (Some(song), v),
{
    assert(v.requests.push(song).drop_last() =~= v.requests);
}

/// After a reset nothing is queued or playing, and a second reset (without
/// leaving a voice channel) reports that nothing changed.
pub proof fn lemma_reset_leaves_nothing(v: ServerPropsView)
    ensures
        !v.cleared().has_content(),
        v.cleared().cleared() == v.cleared(),
        v.cleared().requests.len() == 0 && v.cleared().playlist.len() == 0,
{
}

/// A video queued together with its playlist is not queued a second time
/// from the playlist: no song that stays in the list has the video's id, and
/// every song that stays was in the list.
pub proof fn lemma_without_id_drops_video(list: Seq<Song>, id: Option<Seq<char>>)
    ensures
        forall|i: int| 0 <= i < without_id(list, id).len() ==> (#[trigger] without_id(list, id)[i])@.id != id,
        forall|i: int| 0 <= i < without_id(list, id).len() ==> list.contains(#[trigger] without_id(list, id)[i]),
        without_id(list, id).len() <= list.len(),
    decreases list.len(),
{
    if list.len() > 0 {
        let rest = list.drop_first();
        lemma_without_id_drops_video(rest, id);
        assert forall|i: int| 0 <= i < without_id(list, id).len() implies list.contains(#[trigger] without_id(list, id)[i]) by {
            if list[0]@.id == id {
                let j = choose|j: int| 0 <= j < rest.len() && rest[j] == without_id(rest, id)[i];
                assert(list[j + 1] == rest[j]);
            } else if i > 0 {
                assert(without_id(list, id)[i] == without_id(rest, id)[i - 1]);
                let j = choose|j: int| 0 <= j < rest.len() && rest[j] == without_id(rest, id)[i - 1];
                assert(list[j + 1] == rest[j]);
            } else {
                assert(list[0] == without_id(list, id)[0]);
            }
        }
        if list[0]@.id != id {
            assert forall|i: int| 0 <= i < without_id(list, id).len() implies (#[trigger] without_id(list, id)[i])@.id != id by {
                if i > 0 {
                    assert(without_id(list, id)[i] == without_id(rest, id)[i - 1]);
                }
            }
        }
    }
}

/// Taking the next song while single requests are queued gives the oldest
/// request, removes exactly that one from the request queue, and touches
/// neither the playlist queue nor the player state.
pub proof fn lemma_take_oldest_request_first(v: ServerPropsView)
    requires
        v.requests.len() > 0,
    ensures
        v.pop_next().0 == Some(v.requests[0]),
        v.pop_next().1.requests == v.requests.subrange(1, v.requests.len() as int),
        v.pop_next().1.playlist == v.playlist,
        v.pop_next().1.state == v.state,
{
    assert(v.requests.drop_first() =~= v.requests.subrange(1, v.requests.len() as int));
}

/// With no single request queued, taking the next song gives the first
/// playlist song and removes exactly that one; the request queue stays
/// empty. With both queues empty nothing is taken and nothing changes.
pub proof fn lemma_take_from_playlist_only_without_requests(v: ServerPropsView)
    requires
        v.requests.len() == 0,
    ensures
        v.playlist.len() > 0 ==> v.pop_next().0 == Some(v.playlist[0])
            && v.pop_next().1.playlist == v.playlist.subrange(1, v.playlist.len() as int)
            && v.pop_next().1.requests.len() == 0 && v.pop_next().1.state == v.state,
        v.playlist.len() == 0 ==> v.pop_next() == (None::<Song>, v),
{
    assert(v.playlist.drop_first() =~= v.playlist.subrange(1, v.playlist.len() as int));
}

/// Every take removes exactly one song from one queue: the two queues
/// together shrink by one when anything was queued, and a song taken from
/// the request queue leaves the playlist queue as long as it was.
pub proof fn lemma_take_removes_one(v: ServerPropsView)
    ensures
        v.requests.len() + v.playlist.len() > 0 ==> v.pop_next().0 is Some
            && v.pop_next().1.requests.len() + v.pop_next().1.playlist.len() + 1
                == v.requests.len() + v.playlist.len(),
        v.requests.len() > 0 ==> v.pop_next().1.playlist.len() == v.playlist.len()
            && v.pop_next().1.requests.len() + 1 == v.requests.len(),
{
}

/// A single request queued at any time, after any takes, is played before
/// every playlist song: the next takes give the queued requests in order,
/// the new one last, before the first playlist song.
pub proof fn lemma_new_request_before_playlist(v: ServerPropsView, song: Song)
    ensures
        play_order(v.add_request(song), v.requests.len() + 1) == v.requests.push(song),
{
    lemma_requests_before_playlist(v.add_request(song));
    lemma_play_order_prefix(v.add_request(song), v.requests.len() + 1);
}

proof fn lemma_play_order_prefix(v: ServerPropsView, k: nat)
    requires
        k <= v.requests.len(),
    ensures
        play_order(v, k) == v.requests.subrange(0, k as int),
    decreases k,
{
    if k > 0 {
        let rest = v.pop_next().1;
        assert(rest.requests =~= v.requests.drop_first());
        lemma_play_order_prefix(rest, (k - 1) as nat);
        assert(seq![v.requests[0]] + rest.requests.subrange(0, k - 1) =~= v.requests.subrange(0, k as int));
    }
}

/// Leaving out the songs with a given id works song by song: applied to
/// two lists one after the other it gives the kept songs of the first
/// followed by those of the second.
pub proof fn lemma_without_id_append(a: Seq<Song>, b: Seq<Song>, id: Option<Seq<char>>)
    ensures
        without_id(a + b, id) == without_id(a, id) + without_id(b, id),
    decreases a.len(),
{
    if a.len() == 0 {
        assert(a + b =~= b);
        assert(without_id(a, id) + without_id(b, id) =~= without_id(b, id));
    } else {
        assert((a + b).drop_first() =~= a.drop_first() + b);
        assert((a + b)[0] == a[0]);
        lemma_without_id_append(a.drop_first(), b, id);
        assert(seq![a[0]] + (without_id(a.drop_first(), id) + without_id(b, id))
            =~= (seq![a[0]] + without_id(a.drop_first(), id)) + without_id(b, id));
    }
}

/// A list in which no song has the id loses nothing: every song stays, in
/// order.
pub proof fn lemma_without_id_keeps_others(list: Seq<Song>, id: Option<Seq<char>>)
    requires
        forall|i: int| 0 <= i < list.len() ==> (#[trigger] list[i])@.id != id,
    ensures
        without_id(list, id) == list,
    decreases list.len(),
{
    if list.len() > 0 {
        let t = list.drop_first();
        assert forall|i: int| 0 <= i < t.len() implies (#[trigger] t[i])@.id != id by {
            assert(t[i] == list[i + 1]);
        }
        lemma_without_id_keeps_others(t, id);
        assert(list[0]@.id != id);
        assert(seq![list[0]] + t =~= list);
    }
}

} // verus!
