//! Data model of the catalog's older index-page message format; carried for
//! compatibility, read only where noted.

use vstd::prelude::*;

verus! {

/// Where a catalog item's page lives.
pub struct UrlHints {
    pub subdomain: String,
    pub custom_domain: Option<String>,
    pub custom_domain_verified: Option<i32>,
    pub slug: String,
    pub item_type: String,
}

/// An artist portrait reference.
pub struct BioImage {
    pub image_id: Option<i64>,
    pub height: Option<i32>,
    pub width: Option<i32>,
}

/// A stream location of the older message format.
pub struct File {
    pub mp3_128: String,
}

/// The featured track of an older-format item. The duration is whole
/// seconds.
pub struct FeaturedTrack {
    pub file: File,
    pub duration: u64,
    pub id: i64,
    pub title: String,
    pub encodings_id: i64,
}

/// One item of an older-format index message.
pub struct Item {
    pub item_type: String,
    pub id: i64,
    pub category: String,
    pub extras: Option<String>,
    pub band_id: i64,
    pub item_type_id: String,
    pub is_preorder: Option<i32>,
    pub publish_date: String,
    pub genre_text: String,
    pub primary_text: String,
    pub secondary_text: String,
    pub art_id: i64,
    pub alt_art_image_id: Option<i64>,
    pub url_hints: UrlHints,
    pub featured_track: FeaturedTrack,
    pub location_text: Option<String>,
    pub package_title: Option<String>,
    pub bio_image: BioImage,
    pub recommendations: Option<String>,
    pub license_id: Option<i64>,
    pub territories: Option<String>,
    pub lo_querystr: String,
}

/// The query block of an older-format index message.
pub struct Args {
    pub g: Option<String>,
    pub s: Option<String>,
    pub f: Option<String>,
    pub r: Option<String>,
    pub w: i64,
    pub p: i64,
    pub following: bool,
}

/// A whole older-format index message.
pub struct BandCampJsonMessage {
    pub items: Vec<Item>,
    pub args: Args,
    pub timestamp: String,
    pub ui_sig: String,
    pub data_sig: String,
    pub total_count: i64,
    pub spec_id: i64,
}

} // verus!
