//! The playback state proper: queue tracks, the track now playing, and the
//! aggregate record that the playlist store guards.

use vstd::prelude::*;
use crate::models::bc_discover_index::{clone_opt_string, Element, PostData};
use crate::models::bc_discover_json::Results;
use crate::models::search_models::ItemPage;
use std::collections::VecDeque;

verus! {

/// The richer metadata payload a track carries for the info panel, depending
/// on which discovery path produced it.
pub enum ResultsJson {
    /// A curated discovery result.
    Select(Box<Results>),
    /// A free-word search or album result.
    Search(Box<ItemPage>),
    /// No payload.
    Empty,
}

/// Mathematical value of a [`ResultsJson`].
#[verifier::ext_equal]
pub enum ResultsJsonView {
    Select(crate::models::bc_discover_json::ResultsView),
    Search(crate::models::search_models::ItemPageView),
    Empty,
}

impl View for ResultsJson {
    type V = ResultsJsonView;

    open spec fn view(&self) -> ResultsJsonView {
        match self {
            ResultsJson::Select(r) => ResultsJsonView::Select(r@),
            ResultsJson::Search(p) => ResultsJsonView::Search(p@),
            ResultsJson::Empty => ResultsJsonView::Empty,
        }
    }
}

impl Clone for ResultsJson {
    fn clone(&self) -> (r: ResultsJson)
        ensures
            r@ == self@,
    {
        match self {
            ResultsJson::Select(b) => ResultsJson::Select(Box::new((**b).clone())),
            ResultsJson::Search(b) => ResultsJson::Search(Box::new((**b).clone())),
            ResultsJson::Empty => ResultsJson::Empty,
        }
    }
}

impl Default for ResultsJson {
    /// A track starts with no payload.
    fn default() -> (r: ResultsJson)
        ensures
            r@ == ResultsJsonView::Empty,
    {
        ResultsJson::Empty
    }
}

/// Clones a byte buffer.
pub fn clone_bytes(v: &Vec<u8>) -> (r: Vec<u8>)
    ensures
        r@ == v@,
{
    let mut r: Vec<u8> = Vec::new();
    let mut i: usize = 0;
    while i < v.len()
        invariant
            i <= v.len(),
            r@ == v@.take(i as int),
        decreases v.len() - i,
    {
        r.push(v[i]);
        i = i + 1;
        proof {
            assert(r@ =~= v@.take(i as int));
        }
    }
    proof {
        assert(r@ =~= v@);
    }
    r
}

/// One playable item of the queue. The `buffer` is empty until the look-ahead
/// task fetches the track's bytes; `duration` is whole seconds, refined once
/// the buffer is probed.
pub struct Track {
    pub album_title: String,
    pub artist_name: String,
    pub art_id: Option<i64>,
    pub band_id: i64,
    pub url: String,
    pub duration: u64,
    pub track: String,
    pub buffer: Vec<u8>,
    pub results: ResultsJson,
    pub genre: Option<String>,
    pub subgenre: Option<String>,
}

/// Mathematical value of a [`Track`].
#[verifier::ext_equal]
pub struct TrackView {
    pub album_title: Seq<char>,
    pub artist_name: Seq<char>,
    pub art_id: Option<i64>,
    pub band_id: i64,
    pub url: Seq<char>,
    pub duration: u64,
    pub track: Seq<char>,
    pub buffer: Seq<u8>,
    pub results: ResultsJsonView,
    pub genre: Option<Seq<char>>,
    pub subgenre: Option<Seq<char>>,
}

impl View for Track {
    type V = TrackView;

    open spec fn view(&self) -> TrackView {
        TrackView {
            album_title: self.album_title@,
            artist_name: self.artist_name@,
            art_id: self.art_id,
            band_id: self.band_id,
            url: self.url@,
            duration: self.duration,
            track: self.track@,
            buffer: self.buffer@,
            results: self.results@,
            genre: match self.genre {
                Some(s) => Some(s@),
                None => None,
            },
            subgenre: match self.subgenre {
                Some(s) => Some(s@),
                None => None,
            },
        }
    }
}

impl DeepView for Track {
    type V = TrackView;

    open spec fn deep_view(&self) -> TrackView {
        self.view()
    }
}

impl Clone for Track {
    fn clone(&self) -> (r: Track)
        ensures
            r@ == self@,
    {
        let r = Track {
            album_title: self.album_title.clone(),
            artist_name: self.artist_name.clone(),
            art_id: self.art_id,
            band_id: self.band_id,
            url: self.url.clone(),
            duration: self.duration,
            track: self.track.clone(),
            buffer: clone_bytes(&self.buffer),
            results: self.results.clone(),
            genre: clone_opt_string(&self.genre),
            subgenre: clone_opt_string(&self.subgenre),
        };
        proof {
            assert(r@ =~= self@);
        }
        r
    }
}

/// Snapshot of the track actively playing: the popped queue head plus the
/// moment playback started, as seconds since the Unix epoch. It has no byte
/// buffer: that was handed to the audio sink when the track was promoted.
pub struct CurrentTrack {
    pub duration: u64,
    pub track: String,
    pub art_id: Option<i64>,
    pub band_id: i64,
    pub album_title: String,
    pub artist_name: String,
    pub genre_text: String,
    pub play_date: i64,
    pub results: ResultsJson,
    pub genre: Option<String>,
    pub subgenre: Option<String>,
}

/// Mathematical value of a [`CurrentTrack`].
#[verifier::ext_equal]
pub struct CurrentTrackView {
    pub duration: u64,
    pub track: Seq<char>,
    pub art_id: Option<i64>,
    pub band_id: i64,
    pub album_title: Seq<char>,
    pub artist_name: Seq<char>,
    pub genre_text: Seq<char>,
    pub play_date: i64,
    pub results: ResultsJsonView,
    pub genre: Option<Seq<char>>,
    pub subgenre: Option<Seq<char>>,
}

impl View for CurrentTrack {
    type V = CurrentTrackView;

    open spec fn view(&self) -> CurrentTrackView {
        CurrentTrackView {
            duration: self.duration,
            track: self.track@,
            art_id: self.art_id,
            band_id: self.band_id,
            album_title: self.album_title@,
            artist_name: self.artist_name@,
            genre_text: self.genre_text@,
            play_date: self.play_date,
            results: self.results@,
            genre: match self.genre {
                Some(s) => Some(s@),
                None => None,
            },
            subgenre: match self.subgenre {
                Some(s) => Some(s@),
                None => None,
            },
        }
    }
}

impl Clone for CurrentTrack {
    fn clone(&self) -> (r: CurrentTrack)
        ensures
            r@ == self@,
    {
        let r = CurrentTrack {
            duration: self.duration,
            track: self.track.clone(),
            art_id: self.art_id,
            band_id: self.band_id,
            album_title: self.album_title.clone(),
            artist_name: self.artist_name.clone(),
            genre_text: self.genre_text.clone(),
            play_date: self.play_date,
            results: self.results.clone(),
            genre: clone_opt_string(&self.genre),
            subgenre: clone_opt_string(&self.subgenre),
        };
        proof {
            assert(r@ =~= self@);
        }
        r
    }
}

impl Default for CurrentTrack {
    /// Before the first promotion nothing is playing.
    fn default() -> (r: CurrentTrack)
        ensures
            r@.duration == 0,
            r@.track.len() == 0,
            r@.art_id is None,
            r@.band_id == 0,
            r@.album_title.len() == 0,
            r@.artist_name.len() == 0,
            r@.genre_text.len() == 0,
            r@.play_date == 0,
            r@.results == ResultsJsonView::Empty,
            r@.genre is None,
            r@.subgenre is None,
    {
        CurrentTrack {
            duration: 0,
            track: String::new(),
            art_id: None,
            band_id: 0,
            album_title: String::new(),
            artist_name: String::new(),
            genre_text: String::new(),
            play_date: 0,
            results: ResultsJson::Empty,
            genre: None,
            subgenre: None,
        }
    }
}

/// The playlist: the FIFO queue of tracks (front is next to play), the track
/// now playing, the pagination request for "fetch more", and the browsing
/// context the queue was filled from.
pub struct PlaylistInfo {
    pub current_track: CurrentTrack,
    pub tracks: VecDeque<Track>,
    pub post_data: PostData,
    pub genres: Vec<Element>,
    pub subgenres: Vec<Element>,
    pub genre: String,
    pub subgenre: String,
}

/// Server-side navigation state: URLs picked in dialogs but not acted on yet.
pub struct ServerInfo {
    pub select_url: VecDeque<String>,
    pub top_page: String,
}

/// Everything the playlist store guards.
pub struct State {
    pub player: PlaylistInfo,
    pub server: ServerInfo,
}

} // verus!
