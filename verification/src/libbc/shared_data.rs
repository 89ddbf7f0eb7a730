//! The playlist store: every operation over the shared playback state.
//!
//! Callers are expected to guard a `SharedState` with one lock and to keep
//! each call inside one short critical section; the operations themselves are
//! plain sequential mutations with exact contracts.

use vstd::prelude::*;
use crate::models::bc_discover_index::{clone_elements, Element, PostData};
use crate::models::shared_data_models::{
    clone_bytes, CurrentTrack, CurrentTrackView, PlaylistInfo, ServerInfo, State, Track, TrackView,
};
use std::collections::VecDeque;

verus! {

/// The record of all playback state. The process guards one value of this
/// type with a mutex; everything the player decides is decided from it.
pub struct SharedState {
    pub state: State,
}

/// Holds when `a` and `b` agree on the browsing context: the cached genre
/// tree and the chosen genre and sub-genre labels.
pub open spec fn browsing_unchanged(a: SharedState, b: SharedState) -> bool {
    &&& a.state.player.genres == b.state.player.genres
    &&& a.state.player.subgenres == b.state.player.subgenres
    &&& a.state.player.genre == b.state.player.genre
    &&& a.state.player.subgenre == b.state.player.subgenre
}

/// Holds when `a` and `b` agree on the server-side navigation state.
pub open spec fn server_unchanged(a: SharedState, b: SharedState) -> bool {
    a.state.server == b.state.server
}

/// What a buffer write keyed by `url` does to the store. If no queued track
/// has that URL, the write is dropped and the store is untouched; otherwise
/// exactly the first track with that URL gets the buffer and the refined
/// duration, and every other track is left as it was.
pub open spec fn buffer_write_effect(
    pre: SharedState,
    post: SharedState,
    url: Seq<char>,
    buf: Seq<u8>,
    duration: u64,
) -> bool {
    &&& (forall|k: int| 0 <= k < pre.queue().len() ==> (#[trigger] pre.queue()[k])@.url != url)
        ==> post == pre
    &&& (exists|k: int| 0 <= k < pre.queue().len() && (#[trigger] pre.queue()[k])@.url == url)
        ==> (exists|j: int|
        {
            &&& 0 <= j < pre.queue().len()
            &&& pre.queue()[j]@.url == url
            &&& (forall|k: int| 0 <= k < j ==> (#[trigger] pre.queue()[k])@.url != url)
            &&& post.queue().len() == pre.queue().len()
            &&& (#[trigger] post.queue()[j])@ == (TrackView {
                buffer: buf,
                duration: duration,
                ..pre.queue()[j]@
            })
            &&& (forall|k: int|
                0 <= k < pre.queue().len() && k != j ==> #[trigger] post.queue()[k]
                    == pre.queue()[k])
        })
}

impl SharedState {
    /// The queue of tracks; index 0 is the next track to play.
    pub open spec fn queue(self) -> Seq<Track> {
        self.state.player.tracks@
    }

    /// The track now playing.
    pub open spec fn current(self) -> CurrentTrack {
        self.state.player.current_track
    }

    /// The pagination request that fetches the next page.
    pub open spec fn post(self) -> PostData {
        self.state.player.post_data
    }

    /// Number of queued tracks whose look-ahead buffer has been filled.
    pub open spec fn buffered_count(self) -> nat {
        count_buffered(self.queue())
    }

    /// A fresh store: empty queue, nothing playing, first-page request.
    pub fn new() -> (r: SharedState)
        ensures
            r.queue().len() == 0,
            r.current()@.track.len() == 0,
            r.current()@.play_date == 0,
            (match r.post().cursor {
                Some(c) => c@ == "*"@,
                None => false,
            }),
            r.state.player.genres@.len() == 0,
            r.state.player.subgenres@.len() == 0,
            r.state.player.genre@.len() == 0,
            r.state.player.subgenre@.len() == 0,
            r.state.server.select_url@.len() == 0,
    {
        SharedState {
            state: State {
                player: PlaylistInfo {
                    current_track: CurrentTrack::default(),
                    tracks: VecDeque::new(),
                    post_data: PostData::default(),
                    genres: Vec::new(),
                    subgenres: Vec::new(),
                    genre: String::new(),
                    subgenre: String::new(),
                },
                server: ServerInfo { select_url: VecDeque::new(), top_page: String::new() },
            },
        }
    }

    /// Queue length.
    pub fn queue_length_from_truck_list(&self) -> (l: usize)
        ensures
            l == self.queue().len(),
    {
        self.state.player.tracks.len()
    }

    /// Appends a whole page of tracks at the back of the queue.
    pub fn append_tracklist(&mut self, playlist: VecDeque<Track>)
        ensures
            final(self).queue() == old(self).queue() + playlist@,
            final(self).current() == old(self).current(),
            final(self).post() == old(self).post(),
            browsing_unchanged(*old(self), *final(self)),
            server_unchanged(*old(self), *final(self)),
    {
        let mut playlist = playlist;
        self.state.player.tracks.append(&mut playlist);
    }

    /// Puts one track at the front of the queue, ahead of everything queued:
    /// used to inject just-found search results.
    pub fn push_front_tracklist(&mut self, playlist: Track)
        ensures
            final(self).queue() == seq![playlist] + old(self).queue(),
            final(self).current() == old(self).current(),
            final(self).post() == old(self).post(),
            browsing_unchanged(*old(self), *final(self)),
            server_unchanged(*old(self), *final(self)),
    {
        self.state.player.tracks.push_front(playlist);
    }

    /// Inserts one track at position `n`.
    pub fn insert_tracklist(&mut self, n: usize, playlist: Track)
        requires
            n <= old(self).queue().len(),
        ensures
            final(self).queue() == old(self).queue().insert(n as int, playlist),
            final(self).current() == old(self).current(),
            final(self).post() == old(self).post(),
            browsing_unchanged(*old(self), *final(self)),
            server_unchanged(*old(self), *final(self)),
    {
        self.state.player.tracks.insert(n, playlist);
    }

    /// Empties the queue; the new browsing context will refill it.
    pub fn clear_all_tracklist(&mut self)
        ensures
            final(self).queue().len() == 0,
            final(self).current() == old(self).current(),
            final(self).post() == old(self).post(),
            browsing_unchanged(*old(self), *final(self)),
            server_unchanged(*old(self), *final(self)),
    {
        self.state.player.tracks.clear();
    }

    /// Drops the first `l - 1` queued tracks, so that the track picked in the
    /// playlist dialog (line `l`, counted from 1) becomes the queue head.
    pub fn drain_tracklist(&mut self, l: usize)
        requires
            1 <= l,
            l - 1 <= old(self).queue().len(),
        ensures
            final(self).queue() == old(self).queue().skip(l - 1),
            final(self).current() == old(self).current(),
            final(self).post() == old(self).post(),
            browsing_unchanged(*old(self), *final(self)),
            server_unchanged(*old(self), *final(self)),
    {
        let mut i: usize = 0;
        while i < l - 1
            invariant
                i <= l - 1,
                l - 1 <= old(self).queue().len(),
                self.queue() == old(self).queue().skip(i as int),
                self.current() == old(self).current(),
                self.post() == old(self).post(),
                browsing_unchanged(*old(self), *self),
                server_unchanged(*old(self), *self),
            decreases l - 1 - i,
        {
            let popped = self.state.player.tracks.pop_front();
            i = i + 1;
            proof {
                assert(self.queue() =~= old(self).queue().skip(i as int));
            }
        }
    }

    /// A copy of the queue, for the playlist dialog.
    pub fn get_tracklist(&self) -> (r: VecDeque<Track>)
        ensures
            r@.len() == self.queue().len(),
            forall|i: int| 0 <= i < r@.len() ==> (#[trigger] r@[i])@ == self.queue()[i]@,
    {
        let mut r: VecDeque<Track> = VecDeque::new();
        let mut i: usize = 0;
        while i < self.state.player.tracks.len()
            invariant
                i <= self.queue().len(),
                r@.len() == i as int,
                forall|j: int| 0 <= j < i as int ==> (#[trigger] r@[j])@ == self.queue()[j]@,
            decreases self.queue().len() - i,
        {
            r.push_back(self.state.player.tracks[i].clone());
            i = i + 1;
        }
        r
    }

    /// Saves the pagination request for the next page.
    pub fn set_next_postdata(&mut self, post_data: &PostData)
        ensures
            final(self).post()@ == post_data@,
            final(self).queue() == old(self).queue(),
            final(self).current() == old(self).current(),
            browsing_unchanged(*old(self), *final(self)),
            server_unchanged(*old(self), *final(self)),
    {
        self.state.player.post_data = post_data.clone();
    }

    /// Caches the fetched genre tree.
    pub fn save_genres(&mut self, genres: Vec<Element>, subgenres: Vec<Element>)
        ensures
            final(self).state.player.genres == genres,
            final(self).state.player.subgenres == subgenres,
            final(self).state.player.genre == old(self).state.player.genre,
            final(self).state.player.subgenre == old(self).state.player.subgenre,
            final(self).queue() == old(self).queue(),
            final(self).current() == old(self).current(),
            final(self).post() == old(self).post(),
            server_unchanged(*old(self), *final(self)),
    {
        self.state.player.genres = genres;
        self.state.player.subgenres = subgenres;
    }

    /// The cached genre tree: genres, then sub-genres.
    pub fn get_genres(&self) -> (r: (Vec<Element>, Vec<Element>))
        ensures
            r.0@.len() == self.state.player.genres@.len(),
            forall|i: int|
                0 <= i < r.0@.len() ==> (#[trigger] r.0@[i])@ == self.state.player.genres@[i]@,
            r.1@.len() == self.state.player.subgenres@.len(),
            forall|i: int|
                0 <= i < r.1@.len() ==> (#[trigger] r.1@[i])@ == self.state.player.subgenres@[i]@,
    {
        (clone_elements(&self.state.player.genres), clone_elements(&self.state.player.subgenres))
    }

    /// Records the chosen genre label.
    pub fn set_genre(&mut self, genre: &str)
        ensures
            final(self).state.player.genre@ == genre@,
            final(self).state.player.subgenre == old(self).state.player.subgenre,
            final(self).state.player.genres == old(self).state.player.genres,
            final(self).state.player.subgenres == old(self).state.player.subgenres,
            final(self).queue() == old(self).queue(),
            final(self).current() == old(self).current(),
            final(self).post() == old(self).post(),
            server_unchanged(*old(self), *final(self)),
    {
        self.state.player.genre = genre.to_owned();
    }

    /// The chosen genre label.
    pub fn get_genre(&self) -> (r: String)
        ensures
            r@ == self.state.player.genre@,
    {
        self.state.player.genre.clone()
    }

    /// Records the chosen sub-genre label.
    pub fn set_subgenre(&mut self, subgenre: &str)
        ensures
            final(self).state.player.subgenre@ == subgenre@,
            final(self).state.player.genre == old(self).state.player.genre,
            final(self).state.player.genres == old(self).state.player.genres,
            final(self).state.player.subgenres == old(self).state.player.subgenres,
            final(self).queue() == old(self).queue(),
            final(self).current() == old(self).current(),
            final(self).post() == old(self).post(),
            server_unchanged(*old(self), *final(self)),
    {
        self.state.player.subgenre = subgenre.to_owned();
    }

    /// The chosen sub-genre label.
    pub fn get_subgenre(&self) -> (r: String)
        ensures
            r@ == self.state.player.subgenre@,
    {
        self.state.player.subgenre.clone()
    }

    /// The saved pagination request.
    pub fn next_post(&self) -> (r: PostData)
        ensures
            r@ == self.post()@,
    {
        self.state.player.post_data.clone()
    }

    /// Number of queued tracks whose buffer has been filled.
    pub fn get_buffer_set_queue_length(&self) -> (n: usize)
        ensures
            n == self.buffered_count(),
    {
        let mut n: usize = 0;
        let mut i: usize = 0;
        while i < self.state.player.tracks.len()
            invariant
                i <= self.queue().len(),
                n as nat == count_buffered(self.queue().take(i as int)),
                n <= i,
            decreases self.queue().len() - i,
        {
            proof {
                assert(self.queue().take(i + 1).drop_last() =~= self.queue().take(i as int));
                assert(self.queue().take(i + 1).last() == self.queue()[i as int]);
            }
            if !self.state.player.tracks[i].buffer.is_empty() {
                n = n + 1;
            }
            i = i + 1;
        }
        proof {
            assert(self.queue().take(self.queue().len() as int) =~= self.queue());
        }
        n
    }

    /// Fills the look-ahead buffer of the track whose stream URL is `url` and
    /// refines its duration. The write is keyed by URL, not by position,
    /// because the queue can change between the fetch being issued and the
    /// fetch completing: if no queued track has that URL any more, the stale
    /// write is silently dropped and the store is left exactly as it was.
    pub fn set_track_buffer(&mut self, url: &str, buf: Vec<u8>, duration: u64)
        ensures
            buffer_write_effect(*old(self), *final(self), url@, buf@, duration),
            final(self).current() == old(self).current(),
            final(self).post() == old(self).post(),
            browsing_unchanged(*old(self), *final(self)),
            server_unchanged(*old(self), *final(self)),
    {
        let len = self.state.player.tracks.len();
        let mut i: usize = 0;
        while i < len
            invariant
                len == self.queue().len(),
                i <= len,
                *self == *old(self),
                forall|k: int| 0 <= k < i as int ==> (#[trigger] self.queue()[k])@.url != url@,
            decreases len - i,
        {
            if str_eq_string(url, &self.state.player.tracks[i].url) {
                let ghost q0 = old(self).queue();
                let ghost b = buf@;
                let t = self.state.player.tracks.remove(i);
                match t {
                    Some(t) => {
                        let t2 = Track { buffer: buf, duration: duration, ..t };
                        self.state.player.tracks.insert(i, t2);
                        proof {
                            assert(self.queue() =~= q0.update(i as int, self.queue()[i as int]));
                            assert(self.queue()[i as int]@ =~= (TrackView {
                                buffer: b,
                                duration: duration,
                                ..q0[i as int]@
                            }));
                            assert(q0[i as int]@.url == url@);
                            assert(forall|k: int| 0 <= k < i as int ==> (#[trigger] q0[k])@.url != url@);
                            assert(forall|k: int|
                                0 <= k < q0.len() && k != i as int
                                    ==> #[trigger] self.queue()[k] == q0[k]);
                        }
                        return ;
                    },
                    None => {
                        proof {
                            assert(false);
                        }
                        return ;
                    },
                }
            }
            i = i + 1;
        }
    }

    /// Whether the queued track at `pos` already has its buffer.
    pub fn exists_track_buffer(&self, pos: usize) -> (r: bool)
        requires
            pos < self.queue().len(),
        ensures
            r == (self.queue()[pos as int]@.buffer.len() > 0),
    {
        !self.state.player.tracks[pos].buffer.is_empty()
    }

    /// A copy of the buffer of the queued track at `pos`.
    pub fn get_track_buffer(&self, pos: usize) -> (r: Vec<u8>)
        requires
            pos < self.queue().len(),
        ensures
            r@ == self.queue()[pos as int]@.buffer,
    {
        clone_bytes(&self.state.player.tracks[pos].buffer)
    }

    /// The stream URL of the queued track at `pos`.
    pub fn get_track_url(&self, pos: usize) -> (r: String)
        requires
            pos < self.queue().len(),
        ensures
            r@ == self.queue()[pos as int]@.url,
    {
        self.state.player.tracks[pos].url.clone()
    }

    /// Pops the queue head and promotes it to the track now playing, stamping
    /// the moment playback started. Callers must check the length first: the
    /// queue must not be empty.
    pub fn move_to_current_track(&mut self, play_date: i64)
        requires
            old(self).queue().len() > 0,
        ensures
            final(self).queue() == old(self).queue().skip(1),
            final(self).current()@ == (CurrentTrackView {
                duration: old(self).queue()[0]@.duration,
                track: old(self).queue()[0]@.track,
                art_id: old(self).queue()[0]@.art_id,
                band_id: old(self).queue()[0]@.band_id,
                album_title: old(self).queue()[0]@.album_title,
                artist_name: old(self).queue()[0]@.artist_name,
                genre_text: old(self).current()@.genre_text,
                play_date: play_date,
                results: old(self).queue()[0]@.results,
                genre: old(self).queue()[0]@.genre,
                subgenre: old(self).queue()[0]@.subgenre,
            }),
            final(self).post() == old(self).post(),
            browsing_unchanged(*old(self), *final(self)),
            server_unchanged(*old(self), *final(self)),
    {
        let track = self.state.player.tracks.pop_front();
        match track {
            Some(track) => {
                self.state.player.current_track.duration = track.duration;
                self.state.player.current_track.track = track.track;
                self.state.player.current_track.album_title = track.album_title;
                self.state.player.current_track.art_id = track.art_id;
                self.state.player.current_track.band_id = track.band_id;
                self.state.player.current_track.artist_name = track.artist_name;
                self.state.player.current_track.play_date = play_date;
                self.state.player.current_track.results = track.results;
                self.state.player.current_track.genre = track.genre;
                self.state.player.current_track.subgenre = track.subgenre;
                proof {
                    assert(self.queue() =~= old(self).queue().skip(1));
                    assert(self.current()@ =~= (CurrentTrackView {
                        duration: old(self).queue()[0]@.duration,
                        track: old(self).queue()[0]@.track,
                        art_id: old(self).queue()[0]@.art_id,
                        band_id: old(self).queue()[0]@.band_id,
                        album_title: old(self).queue()[0]@.album_title,
                        artist_name: old(self).queue()[0]@.artist_name,
                        genre_text: old(self).current()@.genre_text,
                        play_date: play_date,
                        results: old(self).queue()[0]@.results,
                        genre: old(self).queue()[0]@.genre,
                        subgenre: old(self).queue()[0]@.subgenre,
                    }));
                }
            },
            None => {
                proof {
                    assert(false);
                }
            },
        }
    }

    /// A copy of the track now playing, for the status display.
    pub fn get_current_track_info(&self) -> (r: CurrentTrack)
        ensures
            r@ == self.current()@,
    {
        self.state.player.current_track.clone()
    }

    /// Artwork id of the track now playing.
    pub fn get_current_art_id(&self) -> (r: Option<i64>)
        ensures
            r == self.current()@.art_id,
    {
        self.state.player.current_track.art_id
    }
}

/// How many of a queue's tracks have a non-empty look-ahead buffer.
pub open spec fn count_buffered(s: Seq<Track>) -> nat
    decreases s.len(),
{
    if s.len() == 0 {
        0
    } else {
        count_buffered(s.drop_last()) + if s.last()@.buffer.len() > 0 {
            1nat
        } else {
            0nat
        }
    }
}

/// Over any single queue operation the length follows the operation
/// exactly and can never fall below zero: a bulk append grows it by the
/// page's length, a push-front by one, and pop-and-promote — permitted only
/// on a non-empty queue — shrinks it by exactly one. (Call sites share a
/// store only under one lock; the operations themselves are sequential.)
pub proof fn lemma_queue_length_laws(
    pre: SharedState,
    post: SharedState,
    page: Seq<Track>,
    t: Track,
)
    ensures
        (post.queue() == pre.queue() + page) ==> post.queue().len() == pre.queue().len()
            + page.len(),
        (post.queue() == seq![t] + pre.queue()) ==> post.queue().len() == pre.queue().len() + 1,
        (pre.queue().len() > 0 && post.queue() == pre.queue().skip(1)) ==> post.queue().len()
            == pre.queue().len() - 1,
        post.queue().len() >= 0,
{
}

/// One queue operation of the playlist store, as a mathematical value: what
/// `append_tracklist`, `push_front_tracklist` and `move_to_current_track`
/// do to the queue by their contracts.
pub enum QueueOp {
    Append(Seq<Track>),
    PushFront(Track),
    PopAndPromote,
}

/// The queue after one operation. Promotion is only ever applied to a
/// non-empty queue — callers must check the length first — and then drops
/// exactly the head.
pub open spec fn apply_queue_op(q: Seq<Track>, op: QueueOp) -> Seq<Track> {
    match op {
        QueueOp::Append(page) => q + page,
        QueueOp::PushFront(t) => seq![t] + q,
        QueueOp::PopAndPromote => q.skip(1),
    }
}

/// The queue after a whole sequence of operations, applied in order.
pub open spec fn apply_queue_ops(q: Seq<Track>, ops: Seq<QueueOp>) -> Seq<Track>
    decreases ops.len(),
{
    if ops.len() == 0 {
        q
    } else {
        apply_queue_ops(apply_queue_op(q, ops[0]), ops.skip(1))
    }
}

/// Whether every promotion of an operation sequence lands on a non-empty
/// queue: the documented precondition of pop-and-promote, at every step.
pub open spec fn ops_admissible(q: Seq<Track>, ops: Seq<QueueOp>) -> bool
    decreases ops.len(),
{
    if ops.len() == 0 {
        true
    } else {
        &&& (ops[0] is PopAndPromote ==> q.len() > 0)
        &&& ops_admissible(apply_queue_op(q, ops[0]), ops.skip(1))
    }
}

/// For every sequence of append, push-front and pop-and-promote calls, the
/// queue length never falls below zero; and when every promotion respects
/// its precondition, each step moves the length by exactly the operation's
/// amount, so the final length is pinned by the history alone.
pub proof fn lemma_queue_length_over_sequences(q: Seq<Track>, ops: Seq<QueueOp>)
    ensures
        apply_queue_ops(q, ops).len() >= 0,
        ops_admissible(q, ops) && ops.len() > 0 ==> apply_queue_ops(q, ops).len()
            == apply_queue_ops(
            apply_queue_op(q, ops[0]),
            ops.skip(1),
        ).len() && apply_queue_op(q, ops[0]).len() as int == (match ops[0] {
            QueueOp::Append(page) => q.len() as int + page.len() as int,
            QueueOp::PushFront(t) => q.len() as int + 1,
            QueueOp::PopAndPromote => q.len() as int - 1,
        }),
    decreases ops.len(),
{
    if ops.len() > 0 {
        lemma_queue_length_over_sequences(apply_queue_op(q, ops[0]), ops.skip(1));
    }
}

/// Character-for-character comparison of a borrowed and an owned string.
fn str_eq_string(a: &str, b: &String) -> (r: bool)
    ensures
        r == (a@ == b@),
{
    let a2 = a.to_owned();
    a2.eq(b)
}

} // verus!
