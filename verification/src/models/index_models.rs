//! Data model of the catalog's index-page colour and tag blocks; carried,
//! never read by the player's logic.

use vstd::prelude::*;
use crate::models::bc_models::Item;

verus! {

/// The colour block of an index page.
pub struct Colors {
    pub g: Option<String>,
    pub t: Option<String>,
    pub r: Option<String>,
    pub s: Option<String>,
    pub l: Option<String>,
    pub f: Option<String>,
    pub w: Option<String>,
}

/// An index-page message: its items and colours.
pub struct MessageForIndexPage {
    pub items: Vec<Item>,
    pub total_count: i64,
    pub colors: Colors,
}

/// A genre row of the index page.
pub struct IndexG {
    pub id: i32,
    pub name: String,
    pub norm_name: String,
    pub value: String,
}

/// A tag row of the index page.
pub struct IndexT {
    pub name: String,
    pub norm_name: String,
    pub value: String,
}

} // verus!
