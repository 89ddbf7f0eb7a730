//! Data model for the catalog's related-tags endpoint, which turns a free
//! tag into the sub-genre entries offered next.

use vstd::prelude::*;
use crate::models::bc_discover_index::clone_strings;

verus! {

/// One related tag of a tag-search response.
pub struct RelatedTags {
    pub id: i64,
    pub name: String,
    pub norm_name: String,
    pub isloc: bool,
}

/// Mathematical value of a [`RelatedTags`].
#[verifier::ext_equal]
pub struct RelatedTagsView {
    pub id: i64,
    pub name: Seq<char>,
    pub norm_name: Seq<char>,
    pub isloc: bool,
}

impl View for RelatedTags {
    type V = RelatedTagsView;

    open spec fn view(&self) -> RelatedTagsView {
        RelatedTagsView {
            id: self.id,
            name: self.name@,
            norm_name: self.norm_name@,
            isloc: self.isloc,
        }
    }
}

impl DeepView for RelatedTags {
    type V = RelatedTagsView;

    open spec fn deep_view(&self) -> RelatedTagsView {
        self.view()
    }
}

/// The tag a tag-search response answered for.
pub struct Tag {
    pub name: String,
    pub norm_name: String,
}

impl Default for Tag {
    /// An empty tag.
    fn default() -> (r: Tag)
        ensures
            r.name@.len() == 0,
            r.norm_name@.len() == 0,
    {
        Tag { name: String::new(), norm_name: String::new() }
    }
}

/// One result block of a tag-search response: the tag and its related tags.
pub struct Struct {
    pub tag: Tag,
    pub related_tags: Vec<RelatedTags>,
}

impl Default for Struct {
    /// A block with no related tags.
    fn default() -> (r: Struct)
        ensures
            r.related_tags@.len() == 0,
    {
        Struct { tag: Tag::default(), related_tags: Vec::new() }
    }
}

/// A whole tag-search response.
pub struct DiscoverTagsJson {
    pub single_results: Vec<Struct>,
}

/// Request body of the related-tags endpoint.
pub struct TagsPostData {
    pub tag_names: Vec<String>,
    pub size: i8,
    pub combo: bool,
}

impl Default for TagsPostData {
    /// Twenty related tags, no combination.
    fn default() -> (r: TagsPostData)
        ensures
            r.tag_names@.len() == 0,
            r.size == 20,
            r.combo == false,
    {
        TagsPostData { tag_names: Vec::new(), size: 20, combo: false }
    }
}

impl Clone for TagsPostData {
    fn clone(&self) -> (r: TagsPostData)
        ensures
            r.tag_names.deep_view() == self.tag_names.deep_view(),
            r.size == self.size,
            r.combo == self.combo,
    {
        TagsPostData {
            tag_names: clone_strings(&self.tag_names),
            size: self.size,
            combo: self.combo,
        }
    }
}

} // verus!
