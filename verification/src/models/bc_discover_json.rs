//! Data model for one page of discovery results: the album entries whose
//! featured tracks feed the playlist, reduced to the fields the player reads.

use vstd::prelude::*;
use crate::models::bc_discover_index::clone_opt_string;

verus! {

/// Price block of a discovery result; carried for the info panel.
#[derive(Clone, Copy)]
pub struct PrimaryImage {
    pub image_id: Option<i64>,
    pub is_art: bool,
}

/// Price of a discovery result. The amount is kept as minor currency units.
pub struct Price {
    pub amount: i64,
    pub currency: String,
    pub is_money: bool,
}

/// Mathematical value of a [`Price`].
#[verifier::ext_equal]
pub struct PriceView {
    pub amount: i64,
    pub currency: Seq<char>,
    pub is_money: bool,
}

impl View for Price {
    type V = PriceView;

    open spec fn view(&self) -> PriceView {
        PriceView { amount: self.amount, currency: self.currency@, is_money: self.is_money }
    }
}

impl Clone for Price {
    fn clone(&self) -> (r: Price)
        ensures
            r@ == self@,
    {
        let r = Price {
            amount: self.amount,
            currency: self.currency.clone(),
            is_money: self.is_money,
        };
        proof {
            assert(r@ =~= self@);
        }
        r
    }
}

/// One purchasable package of a discovery result; carried, never read.
#[derive(Clone)]
pub struct Package {
    pub title: String,
    pub format: String,
    pub image_id: i64,
    pub price: Price,
    pub type_id: i32,
}

/// The featured track of a discovery result: the one entry that becomes a
/// playlist track.
pub struct FeaturedTrack {
    pub band_id: i64,
    pub title: String,
    pub band_name: String,
    pub stream_url: String,
    pub duration: u64,
}

/// Mathematical value of a [`FeaturedTrack`].
#[verifier::ext_equal]
pub struct FeaturedTrackView {
    pub band_id: i64,
    pub title: Seq<char>,
    pub band_name: Seq<char>,
    pub stream_url: Seq<char>,
    pub duration: u64,
}

impl View for FeaturedTrack {
    type V = FeaturedTrackView;

    open spec fn view(&self) -> FeaturedTrackView {
        FeaturedTrackView {
            band_id: self.band_id,
            title: self.title@,
            band_name: self.band_name@,
            stream_url: self.stream_url@,
            duration: self.duration,
        }
    }
}

impl DeepView for FeaturedTrack {
    type V = FeaturedTrackView;

    open spec fn deep_view(&self) -> FeaturedTrackView {
        self.view()
    }
}

impl Clone for FeaturedTrack {
    fn clone(&self) -> (r: FeaturedTrack)
        ensures
            r@ == self@,
    {
        let r = FeaturedTrack {
            band_id: self.band_id,
            title: self.title.clone(),
            band_name: self.band_name.clone(),
            stream_url: self.stream_url.clone(),
            duration: self.duration,
        };
        proof {
            assert(r@ =~= self@);
        }
        r
    }
}

/// One album entry of a discovery page, reduced to what the player and the
/// info panel read. Durations are whole seconds; the price is carried as the
/// catalog's display text.
pub struct Results {
    pub title: String,
    pub item_url: String,
    pub band_id: i64,
    pub band_name: String,
    pub band_url: String,
    pub band_genre_id: i64,
    pub release_date: String,
    pub label_name: Option<String>,
    pub band_location: Option<String>,
    pub label_url: Option<String>,
    pub item_currency: String,
    pub item_price: String,
    pub item_image_id: Option<i64>,
    pub item_duration: u64,
    pub featured_track: FeaturedTrack,
    pub primary_image: PrimaryImage,
    pub price: Price,
}

/// Mathematical value of a [`Results`] entry.
#[verifier::ext_equal]
pub struct ResultsView {
    pub title: Seq<char>,
    pub item_url: Seq<char>,
    pub band_id: i64,
    pub band_name: Seq<char>,
    pub band_url: Seq<char>,
    pub band_genre_id: i64,
    pub release_date: Seq<char>,
    pub label_name: Option<Seq<char>>,
    pub band_location: Option<Seq<char>>,
    pub label_url: Option<Seq<char>>,
    pub item_currency: Seq<char>,
    pub item_price: Seq<char>,
    pub item_image_id: Option<i64>,
    pub item_duration: u64,
    pub featured_track: FeaturedTrackView,
    pub primary_image: PrimaryImage,
    pub price: PriceView,
}

impl View for Results {
    type V = ResultsView;

    open spec fn view(&self) -> ResultsView {
        ResultsView {
            title: self.title@,
            item_url: self.item_url@,
            band_id: self.band_id,
            band_name: self.band_name@,
            band_url: self.band_url@,
            band_genre_id: self.band_genre_id,
            release_date: self.release_date@,
            label_name: match self.label_name {
                Some(s) => Some(s@),
                None => None,
            },
            band_location: match self.band_location {
                Some(s) => Some(s@),
                None => None,
            },
            label_url: match self.label_url {
                Some(s) => Some(s@),
                None => None,
            },
            item_currency: self.item_currency@,
            item_price: self.item_price@,
            item_image_id: self.item_image_id,
            item_duration: self.item_duration,
            featured_track: self.featured_track@,
            primary_image: self.primary_image,
            price: self.price@,
        }
    }
}

impl DeepView for Results {
    type V = ResultsView;

    open spec fn deep_view(&self) -> ResultsView {
        self.view()
    }
}

impl Clone for Results {
    fn clone(&self) -> (r: Results)
        ensures
            r@ == self@,
    {
        let r = Results {
            title: self.title.clone(),
            item_url: self.item_url.clone(),
            band_id: self.band_id,
            band_name: self.band_name.clone(),
            band_url: self.band_url.clone(),
            band_genre_id: self.band_genre_id,
            release_date: self.release_date.clone(),
            label_name: clone_opt_string(&self.label_name),
            band_location: clone_opt_string(&self.band_location),
            label_url: clone_opt_string(&self.label_url),
            item_currency: self.item_currency.clone(),
            item_price: self.item_price.clone(),
            item_image_id: self.item_image_id,
            item_duration: self.item_duration,
            featured_track: self.featured_track.clone(),
            primary_image: self.primary_image,
            price: self.price.clone(),
        };
        proof {
            assert(r@ =~= self@);
        }
        r
    }
}

/// One page of discovery results as handed to the library: the entries and
/// the cursor for the following page.
pub struct DiscoverJsonRequest {
    pub results: Vec<Results>,
    pub cursor: Option<String>,
}

} // verus!
