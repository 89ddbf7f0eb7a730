//! Data model for the catalog's discovery index page: the genre tree shown by
//! the browsing dialogs and the pagination request that asks for one page of
//! discovery results.

use vstd::prelude::*;

verus! {

/// One entry of the genre tree: either a top-level genre or a sub-genre whose
/// `parent_slug` names the genre it belongs to.
pub struct Element {
    pub id: i64,
    pub label: String,
    pub slug: String,
    pub selected: Option<bool>,
    pub parent_slug: Option<String>,
}

/// Mathematical value of an [`Element`].
#[verifier::ext_equal]
pub struct ElementView {
    pub id: i64,
    pub label: Seq<char>,
    pub slug: Seq<char>,
    pub selected: Option<bool>,
    pub parent_slug: Option<Seq<char>>,
}

impl View for Element {
    type V = ElementView;

    open spec fn view(&self) -> ElementView {
        ElementView {
            id: self.id,
            label: self.label@,
            slug: self.slug@,
            selected: self.selected,
            parent_slug: match self.parent_slug {
                Some(s) => Some(s@),
                None => None,
            },
        }
    }
}

impl DeepView for Element {
    type V = ElementView;

    open spec fn deep_view(&self) -> ElementView {
        self.view()
    }
}

/// Clones an optional string, keeping its characters.
pub fn clone_opt_string(s: &Option<String>) -> (r: Option<String>)
    ensures
        match (s, &r) {
            (Some(a), Some(b)) => a@ == b@,
            (None, None) => true,
            _ => false,
        },
{
    match s {
        Some(a) => Some(a.clone()),
        None => None,
    }
}

/// Clones a list of strings, keeping every entry's characters.
pub fn clone_strings(v: &Vec<String>) -> (r: Vec<String>)
    ensures
        r.deep_view() == v.deep_view(),
{
    let mut r: Vec<String> = Vec::new();
    let mut i: usize = 0;
    while i < v.len()
        invariant
            i <= v.len(),
            r@.len() == i as int,
            forall|j: int| 0 <= j < i as int ==> (#[trigger] r@[j])@ == v@[j]@,
        decreases v.len() - i,
    {
        r.push(v[i].clone());
        i = i + 1;
    }
    proof {
        assert forall|j: int| 0 <= j < v@.len() implies r.deep_view()[j]
            == v.deep_view()[j] by {
            assert(r@[j]@ == v@[j]@);
        }
        assert(r.deep_view() =~= v.deep_view());
    }
    r
}

impl Clone for Element {
    fn clone(&self) -> (r: Element)
        ensures
            r@ == self@,
    {
        let r = Element {
            id: self.id,
            label: self.label.clone(),
            slug: self.slug.clone(),
            selected: self.selected,
            parent_slug: clone_opt_string(&self.parent_slug),
        };
        proof {
            assert(r@ =~= self@);
        }
        r
    }
}

impl Default for Element {
    /// An empty genre entry, used as the seed for "all ..." menu rows.
    fn default() -> (r: Element)
        ensures
            r.id == 0,
            r.label@ == Seq::<char>::empty(),
            r.slug@ == Seq::<char>::empty(),
            r.selected is None,
            r.parent_slug is None,
    {
        Element {
            id: 0,
            label: String::new(),
            slug: String::new(),
            selected: None,
            parent_slug: None,
        }
    }
}

/// Clones a genre list, keeping every entry's value.
pub fn clone_elements(v: &Vec<Element>) -> (r: Vec<Element>)
    ensures
        r@.len() == v@.len(),
        forall|i: int| 0 <= i < v@.len() ==> (#[trigger] r@[i])@ == v@[i]@,
{
    let mut r: Vec<Element> = Vec::new();
    let mut i: usize = 0;
    while i < v.len()
        invariant
            i <= v.len(),
            r@.len() == i as int,
            forall|j: int| 0 <= j < i as int ==> (#[trigger] r@[j])@ == v@[j]@,
        decreases v.len() - i,
    {
        r.push(v[i].clone());
        i = i + 1;
    }
    r
}

/// Pagination request body for one page of discovery results: the genre tags
/// to browse and the opaque `cursor` returned by the previous page.
pub struct PostData {
    pub category_id: i16,
    pub tag_norm_names: Vec<String>,
    pub geoname_id: i16,
    pub slice: String,
    pub cursor: Option<String>,
    pub size: i16,
    pub include_result_types: Vec<String>,
}

/// Mathematical value of a [`PostData`].
#[verifier::ext_equal]
pub struct PostDataView {
    pub category_id: i16,
    pub tag_norm_names: Seq<Seq<char>>,
    pub geoname_id: i16,
    pub slice: Seq<char>,
    pub cursor: Option<Seq<char>>,
    pub size: i16,
    pub include_result_types: Seq<Seq<char>>,
}

impl View for PostData {
    type V = PostDataView;

    open spec fn view(&self) -> PostDataView {
        PostDataView {
            category_id: self.category_id,
            tag_norm_names: self.tag_norm_names.deep_view(),
            geoname_id: self.geoname_id,
            slice: self.slice@,
            cursor: match self.cursor {
                Some(s) => Some(s@),
                None => None,
            },
            size: self.size,
            include_result_types: self.include_result_types.deep_view(),
        }
    }
}

impl DeepView for PostData {
    type V = PostDataView;

    open spec fn deep_view(&self) -> PostDataView {
        self.view()
    }
}

impl Clone for PostData {
    fn clone(&self) -> (r: PostData)
        ensures
            r@ == self@,
    {
        let r = PostData {
            category_id: self.category_id,
            tag_norm_names: clone_strings(&self.tag_norm_names),
            geoname_id: self.geoname_id,
            slice: self.slice.clone(),
            cursor: clone_opt_string(&self.cursor),
            size: self.size,
            include_result_types: clone_strings(&self.include_result_types),
        };
        proof {
            assert(r@ =~= self@);
        }
        r
    }
}

impl Default for PostData {
    /// The first-page request: random slice, cursor `"*"`, sixty album results.
    fn default() -> (r: PostData)
        ensures
            r.category_id == 0,
            r.tag_norm_names@.len() == 0,
            r.geoname_id == 0,
            r.slice@ == "rand"@,
            (match r.cursor {
                Some(c) => c@ == "*"@,
                None => false,
            }),
            r.size == 60,
            r.include_result_types.deep_view() =~= seq!["a"@],
    {
        let mut kinds: Vec<String> = Vec::new();
        kinds.push("a".to_owned());
        PostData {
            category_id: 0,
            tag_norm_names: Vec::new(),
            geoname_id: 0,
            slice: "rand".to_owned(),
            cursor: Some("*".to_owned()),
            size: 60,
            include_result_types: kinds,
        }
    }
}

/// The genre tree of the discovery index page.
pub struct InitialState {
    pub categories: Vec<Element>,
    pub genres: Vec<Element>,
    pub subgenres: Vec<Element>,
    pub slices: Vec<Element>,
    pub locations: Vec<Element>,
}

/// Search-engine metadata of the discovery index page; carried, never read.
pub struct SeoData {
    pub title: String,
    pub description: String,
    pub canonical_url: String,
}

/// Session block of the discovery index page; carried, never read.
pub struct PageContext {
    pub fan_id: Option<i64>,
    pub is_logged_in: bool,
    pub is_admin: bool,
    pub is_mobile: bool,
    pub languages: Languages,
}

/// Language labels of the discovery index page; carried, never read.
pub struct Languages {
    pub en: String,
    pub de: String,
    pub es: String,
    pub fr: String,
    pub pt: String,
    pub ja: String,
}

/// Application payload of the discovery index page.
pub struct AppData {
    pub initial_state: InitialState,
    pub seo_data: Option<SeoData>,
    pub include_result_types: Vec<String>,
}

/// Everything the discovery index page carries that the player reads.
pub struct DiscoverIndexRequest {
    pub app_data: AppData,
    pub page_context: PageContext,
}

} // verus!
