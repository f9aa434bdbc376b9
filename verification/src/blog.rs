//! Blog posts, as the database keeps them and as the pages show them.

use vstd::prelude::*;

verus! {

/// A blog post as a page shows it.
#[derive(Debug)]
pub struct BlogPostModel {
    pub id: Option<i32>,
    pub title: String,
    pub content: String,
}

/// What the form for a blog post hands in.
#[derive(Clone, Debug)]
pub struct BlogPostFormData {
    pub title: String,
    pub content: String,
}

/// A blog post as the database keeps it. The identifier is absent until the
/// post has been stored.
#[derive(Clone, Debug)]
pub struct BlogPost {
    pub id: Option<i32>,
    pub title: String,
    pub content: String,
}

impl Default for BlogPost {
    /// A post that has not been stored and holds no text yet.
    fn default() -> (post: BlogPost)
        ensures
            post.id.is_none(),
            post.title@.len() == 0,
            post.content@.len() == 0,
    {
        BlogPost { id: None, title: String::new(), content: String::new() }
    }
}

impl PartialEq for BlogPost {
    fn eq(&self, other: &BlogPost) -> (same: bool) {
        self.id == other.id && self.title == other.title && self.content == other.content
    }
}

impl vstd::std_specs::cmp::PartialEqSpecImpl for BlogPost {
    open spec fn obeys_eq_spec() -> bool {
        true
    }

    open spec fn eq_spec(&self, other: &BlogPost) -> bool {
        self.id == other.id && self.title@ == other.title@ && self.content@ == other.content@
    }
}

impl BlogPost {
    /// The post as a page shows it: the same identifier, title and content.
    pub fn to_model(&self) -> (model: BlogPostModel)
        ensures
            model.id == self.id,
            model.title@ == self.title@,
            model.content@ == self.content@,
    {
        BlogPostModel { id: self.id, title: self.title.clone(), content: self.content.clone() }
    }

    /// The post that a filled-in form describes: not stored yet, so without
    /// identifier.
    pub fn from_form_data(form_data: BlogPostFormData) -> (post: BlogPost)
        ensures
            post.id.is_none(),
            post.title@ == form_data.title@,
            post.content@ == form_data.content@,
    {
        BlogPost { id: None, title: form_data.title, content: form_data.content }
    }
}

} // verus!
