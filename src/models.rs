//! The records of the `users` and `posts` tables. Identifiers are the 128-bit
//! values of UUIDs; timestamps are microseconds since the Unix epoch, UTC.
use vstd::prelude::*;

verus! {

/// Microseconds since the Unix epoch, UTC.
pub type Timestamp = i64;

/// An author account.
#[derive(Debug, Clone)]
pub struct User {
    pub id: u128,
    pub email: String,
    pub name: String,
    pub created_at: Timestamp,
    pub updated_at: Timestamp,
}

/// A stored blog post.
#[derive(Debug, Clone)]
pub struct Post {
    pub id: u128,
    pub title: String,
    pub content: String,
    pub user_id: u128,
    pub excerpt: Option<String>,
    pub slug: String,
    pub published: bool,
    pub category: String,
    pub created_at: Timestamp,
    pub updated_at: Timestamp,
}

/// The fields a caller supplies to create a post; the identifier, the slug
/// and the timestamps are assigned by the store.
#[derive(Debug, Clone)]
pub struct NewPost {
    pub title: String,
    pub content: String,
    pub user_id: u128,
    pub excerpt: Option<String>,
    pub category: String,
}

/// An exact copy of an optional text.
pub fn copy_opt_text(s: &Option<String>) -> (r: Option<String>)
    ensures
        r == *s,
{
    match s {
        Some(t) => Some(t.clone()),
        None => None,
    }
}

impl NewPost {
    /// A new post with the minimal fields: no excerpt and no category.
    pub fn new(title: String, content: String, user_id: u128) -> (r: NewPost)
        ensures
            r.title == title,
            r.content == content,
            r.user_id == user_id,
            r.excerpt is None,
            r.category@ == Seq::<char>::empty(),
    {
        NewPost { title, content, user_id, excerpt: None, category: String::new() }
    }

    /// The same post with the given excerpt.
    pub fn with_excerpt(self, excerpt: String) -> (r: NewPost)
        ensures
            r == (NewPost { excerpt: Some(excerpt), ..self }),
    {
        NewPost { excerpt: Some(excerpt), ..self }
    }

    /// The same post filed under the given category.
    pub fn with_category(self, category: String) -> (r: NewPost)
        ensures
            r == (NewPost { category, ..self }),
    {
        NewPost { category, ..self }
    }
}

impl Post {
    /// An exact copy of the record.
    pub fn copy(&self) -> (r: Post)
        ensures
            r == *self,
    {
        Post {
            id: self.id,
            title: self.title.clone(),
            content: self.content.clone(),
            user_id: self.user_id,
            excerpt: copy_opt_text(&self.excerpt),
            slug: self.slug.clone(),
            published: self.published,
            category: self.category.clone(),
            created_at: self.created_at,
            updated_at: self.updated_at,
        }
    }
}

} // verus!
