//! Turning a fetched album page into queue tracks. Fetching and JSON
//! decoding are external collaborators; the library receives the page as
//! plain values and builds the tracks.

use vstd::prelude::*;
use crate::models::search_models::{ItemPage, ItemPageView, TrackInfoView};
use crate::models::shared_data_models::{ResultsJson, Track, TrackView};

verus! {

/// The album page path of an item: the page origin joined with the album
/// path, or empty when either part is missing.
pub fn album_item_path(base: &str, album: &str) -> (r: String)
    ensures
        (if base@.len() > 0 && album@.len() > 0 {
            r@ == base@ + album@
        } else {
            r@ == Seq::<char>::empty()
        }),
{
    if !base.is_empty() && !album.is_empty() {
        let mut v = crate::libbc::strutil::str_chars(base);
        crate::libbc::strutil::push_str_chars(album, &mut v);
        crate::libbc::strutil::chars_to_string(&v)
    } else {
        String::new()
    }
}

/// The queue track built from one album-page entry: the album's header and
/// artist, the entry's stream URL and duration, an empty buffer, and the
/// whole page kept as the info-panel payload.
pub open spec fn spec_track_from_page(p: ItemPageView, ti: TrackInfoView) -> TrackView {
    TrackView {
        album_title: p.current.title,
        artist_name: p.artist,
        art_id: p.current.art_id,
        band_id: p.current.band_id,
        url: ti.file.unwrap().mp3_128.unwrap(),
        duration: ti.duration,
        track: ti.title.unwrap(),
        buffer: Seq::empty(),
        results: crate::models::shared_data_models::ResultsJsonView::Search(p),
        genre: None,
        subgenre: None,
    }
}

/// The tracks of an album page: one per entry that has a stream file, in
/// order.
pub open spec fn spec_page_tracks(p: ItemPageView, entries: Seq<TrackInfoView>) -> Seq<TrackView>
    decreases entries.len(),
{
    if entries.len() == 0 {
        Seq::empty()
    } else {
        (if entries[0].file is Some {
            seq![spec_track_from_page(p, entries[0])]
        } else {
            Seq::empty()
        }) + spec_page_tracks(p, entries.skip(1))
    }
}

/// Builds the queue tracks of one fetched album page: entries without a
/// stream file are skipped; every kept entry must carry its stream URL and
/// title, as the catalog promises of streamable entries.
pub fn tracks_from_item_page(page: &ItemPage) -> (r: Vec<Track>)
    requires
        forall|j: int|
            0 <= j < page.trackinfo@.len() && (#[trigger] page.trackinfo@[j])@.file is Some ==> {
                &&& page.trackinfo@[j]@.file.unwrap().mp3_128 is Some
                &&& page.trackinfo@[j]@.title is Some
            },
    ensures
        r.deep_view() == spec_page_tracks(page@, page@.trackinfo),
{
    let ghost pv = page@;
    let ghost entries = page@.trackinfo;
    let mut r: Vec<Track> = Vec::new();
    let mut i: usize = 0;
    proof {
        assert(entries.skip(0) =~= entries);
        assert(r.deep_view() =~= Seq::<TrackView>::empty());
    }
    while i < page.trackinfo.len()
        invariant
            i <= page.trackinfo@.len(),
            pv == page@,
            entries == page@.trackinfo,
            entries.len() == page.trackinfo@.len(),
            forall|j: int|
                0 <= j < page.trackinfo@.len() && (#[trigger] page.trackinfo@[j])@.file is Some
                    ==> {
                    &&& page.trackinfo@[j]@.file.unwrap().mp3_128 is Some
                    &&& page.trackinfo@[j]@.title is Some
                },
            spec_page_tracks(pv, entries) == r.deep_view() + spec_page_tracks(
                pv,
                entries.skip(i as int),
            ),
        decreases page.trackinfo@.len() - i,
    {
        proof {
            assert(entries.skip(i as int)[0] == entries[i as int]);
            assert(entries.skip(i as int).skip(1) =~= entries.skip(i + 1));
            assert(entries[i as int] == page.trackinfo@[i as int]@);
        }
        let ti = &page.trackinfo[i];
        match &ti.file {
            Some(f) => {
                match (&f.mp3_128, &ti.title) {
                    (Some(u), Some(title)) => {
                        let t = Track {
                            album_title: page.current.title.clone(),
                            artist_name: page.artist.clone(),
                            art_id: page.current.art_id,
                            band_id: page.current.band_id,
                            url: u.clone(),
                            duration: ti.duration,
                            track: title.clone(),
                            buffer: Vec::new(),
                            results: ResultsJson::Search(Box::new(page.clone())),
                            genre: None,
                            subgenre: None,
                        };
                        let ghost before = r.deep_view();
                        proof {
                            assert(t@ =~= spec_track_from_page(pv, entries[i as int]));
                        }
                        r.push(t);
                        proof {
                            assert(r.deep_view() =~= before.push(
                                spec_track_from_page(pv, entries[i as int]),
                            ));
                        }
                    },
                    _ => {
                        proof {
                            assert(false);
                        }
                    },
                }
            },
            None => {},
        }
        i = i + 1;
        proof {
            assert(spec_page_tracks(pv, entries) =~= r.deep_view() + spec_page_tracks(
                pv,
                entries.skip(i as int),
            ));
        }
    }
    proof {
        assert(spec_page_tracks(pv, entries) =~= r.deep_view());
    }
    r
}

/// Whether a browsing-menu failure must end the process: only a forced
/// abort is fatal there; an unusable selection or a cancel is ignored and
/// the player carries on with the queue it has.
pub fn top_menu_error_is_fatal(e: &crate::models::bc_error::BcradioError) -> (r: bool)
    ensures
        r == (e is OperationInterrupted),
{
    match e {
        crate::models::bc_error::BcradioError::OperationInterrupted => true,
        _ => false,
    }
}

} // verus!
