//! Data model for the free-word search: the request sent to the catalog's
//! search endpoint, its response, and the album page payload that search
//! results are built from.

use vstd::prelude::*;
use crate::models::bc_discover_index::clone_opt_string;

verus! {

/// Request body of the catalog's search endpoint.
pub struct SearchJsonRequest {
    pub search_text: String,
    pub search_filter: String,
    pub full_page: bool,
    pub fan_id: Option<i32>,
}

/// Tag block of a search response; carried, never read.
pub struct Tag {}

/// Genre block of a search response; carried, never read.
pub struct Genre {}

/// One hit of a search response, reduced to what the player reads.
pub struct SearchItem {
    pub types: String,
    pub id: i64,
    pub art_id: Option<i64>,
    pub img_id: Option<i64>,
    pub name: String,
    pub band_id: i64,
    pub band_name: Option<String>,
    pub album_name: Option<String>,
    pub item_url_root: Option<String>,
    pub item_url_path: Option<String>,
    pub img: Option<String>,
    pub album_id: Option<i64>,
}

/// Mathematical value of a [`SearchItem`].
#[verifier::ext_equal]
pub struct SearchItemView {
    pub types: Seq<char>,
    pub id: i64,
    pub art_id: Option<i64>,
    pub img_id: Option<i64>,
    pub name: Seq<char>,
    pub band_id: i64,
    pub band_name: Option<Seq<char>>,
    pub album_name: Option<Seq<char>>,
    pub item_url_root: Option<Seq<char>>,
    pub item_url_path: Option<Seq<char>>,
    pub img: Option<Seq<char>>,
    pub album_id: Option<i64>,
}

impl View for SearchItem {
    type V = SearchItemView;

    open spec fn view(&self) -> SearchItemView {
        SearchItemView {
            types: self.types@,
            id: self.id,
            art_id: self.art_id,
            img_id: self.img_id,
            name: self.name@,
            band_id: self.band_id,
            band_name: match self.band_name {
                Some(s) => Some(s@),
                None => None,
            },
            album_name: match self.album_name {
                Some(s) => Some(s@),
                None => None,
            },
            item_url_root: match self.item_url_root {
                Some(s) => Some(s@),
                None => None,
            },
            item_url_path: match self.item_url_path {
                Some(s) => Some(s@),
                None => None,
            },
            img: match self.img {
                Some(s) => Some(s@),
                None => None,
            },
            album_id: self.album_id,
        }
    }
}

impl DeepView for SearchItem {
    type V = SearchItemView;

    open spec fn deep_view(&self) -> SearchItemView {
        self.view()
    }
}

/// The hit list of a search response.
pub struct Results {
    pub results: Vec<SearchItem>,
    pub stat_params_for_tag: Option<String>,
    pub time_ms: Option<i32>,
}

/// A search response: the hit list plus blocks the player never reads.
pub struct SearchJsonResponse {
    pub auto: Results,
    pub tag: Tag,
    pub genre: Genre,
}

/// Album header of an album page payload.
pub struct Current {
    pub title: String,
    pub art_id: Option<i64>,
    pub band_id: i64,
    pub release_date: String,
}

/// Mathematical value of a [`Current`].
#[verifier::ext_equal]
pub struct CurrentView {
    pub title: Seq<char>,
    pub art_id: Option<i64>,
    pub band_id: i64,
    pub release_date: Seq<char>,
}

impl View for Current {
    type V = CurrentView;

    open spec fn view(&self) -> CurrentView {
        CurrentView {
            title: self.title@,
            art_id: self.art_id,
            band_id: self.band_id,
            release_date: self.release_date@,
        }
    }
}

impl Clone for Current {
    fn clone(&self) -> (r: Current)
        ensures
            r@ == self@,
    {
        let r = Current {
            title: self.title.clone(),
            art_id: self.art_id,
            band_id: self.band_id,
            release_date: self.release_date.clone(),
        };
        proof {
            assert(r@ =~= self@);
        }
        r
    }
}

/// Stream location of one album-page track.
pub struct Mp3Url {
    pub mp3_128: Option<String>,
}

/// Mathematical value of an [`Mp3Url`].
#[verifier::ext_equal]
pub struct Mp3UrlView {
    pub mp3_128: Option<Seq<char>>,
}

impl View for Mp3Url {
    type V = Mp3UrlView;

    open spec fn view(&self) -> Mp3UrlView {
        Mp3UrlView {
            mp3_128: match self.mp3_128 {
                Some(s) => Some(s@),
                None => None,
            },
        }
    }
}

impl Clone for Mp3Url {
    fn clone(&self) -> (r: Mp3Url)
        ensures
            r@ == self@,
    {
        let r = Mp3Url { mp3_128: clone_opt_string(&self.mp3_128) };
        proof {
            assert(r@ =~= self@);
        }
        r
    }
}

/// One track of an album page, reduced to what the player reads. The
/// duration is whole seconds.
pub struct TrackInfo {
    pub file: Option<Mp3Url>,
    pub artist: Option<String>,
    pub title: Option<String>,
    pub duration: u64,
}

/// Mathematical value of a [`TrackInfo`].
#[verifier::ext_equal]
pub struct TrackInfoView {
    pub file: Option<Mp3UrlView>,
    pub artist: Option<Seq<char>>,
    pub title: Option<Seq<char>>,
    pub duration: u64,
}

impl View for TrackInfo {
    type V = TrackInfoView;

    open spec fn view(&self) -> TrackInfoView {
        TrackInfoView {
            file: match &self.file {
                Some(f) => Some(f@),
                None => None,
            },
            artist: match self.artist {
                Some(s) => Some(s@),
                None => None,
            },
            title: match self.title {
                Some(s) => Some(s@),
                None => None,
            },
            duration: self.duration,
        }
    }
}

impl DeepView for TrackInfo {
    type V = TrackInfoView;

    open spec fn deep_view(&self) -> TrackInfoView {
        self.view()
    }
}

impl Clone for TrackInfo {
    fn clone(&self) -> (r: TrackInfo)
        ensures
            r@ == self@,
    {
        let r = TrackInfo {
            file: match &self.file {
                Some(f) => Some(f.clone()),
                None => None,
            },
            artist: clone_opt_string(&self.artist),
            title: clone_opt_string(&self.title),
            duration: self.duration,
        };
        proof {
            assert(r@ =~= self@);
        }
        r
    }
}

/// Clones the track list of an album page, keeping every entry's value.
pub fn clone_trackinfos(v: &Vec<TrackInfo>) -> (r: Vec<TrackInfo>)
    ensures
        r.deep_view() == v.deep_view(),
{
    let mut r: Vec<TrackInfo> = Vec::new();
    let mut i: usize = 0;
    while i < v.len()
        invariant
            i <= v.len(),
            r@.len() == i as int,
            forall|j: int| 0 <= j < i as int ==> (#[trigger] r@[j])@ == v@[j]@,
        decreases v.len() - i,
    {
        r.push(v[i].clone());
        i = i + 1;
    }
    proof {
        assert forall|j: int| 0 <= j < v@.len() implies r.deep_view()[j]
            == v.deep_view()[j] by {
            assert(r@[j]@ == v@[j]@);
        }
        assert(r.deep_view() =~= v.deep_view());
    }
    r
}

/// An album page payload: the source of search-result tracks and the richer
/// metadata payload that search-born tracks carry for the info panel.
pub struct ItemPage {
    pub current: Current,
    pub artist: String,
    pub trackinfo: Vec<TrackInfo>,
    pub album_url: Option<String>,
    pub item_url: Option<String>,
}

/// Mathematical value of an [`ItemPage`].
#[verifier::ext_equal]
pub struct ItemPageView {
    pub current: CurrentView,
    pub artist: Seq<char>,
    pub trackinfo: Seq<TrackInfoView>,
    pub album_url: Option<Seq<char>>,
    pub item_url: Option<Seq<char>>,
}

impl View for ItemPage {
    type V = ItemPageView;

    open spec fn view(&self) -> ItemPageView {
        ItemPageView {
            current: self.current@,
            artist: self.artist@,
            trackinfo: self.trackinfo.deep_view(),
            album_url: match self.album_url {
                Some(s) => Some(s@),
                None => None,
            },
            item_url: match self.item_url {
                Some(s) => Some(s@),
                None => None,
            },
        }
    }
}

impl Clone for ItemPage {
    fn clone(&self) -> (r: ItemPage)
        ensures
            r@ == self@,
    {
        let r = ItemPage {
            current: self.current.clone(),
            artist: self.artist.clone(),
            trackinfo: clone_trackinfos(&self.trackinfo),
            album_url: clone_opt_string(&self.album_url),
            item_url: clone_opt_string(&self.item_url),
        };
        proof {
            assert(r@ =~= self@);
        }
        r
    }
}

} // verus!
