use vstd::prelude::*;
use crate::models::text::{clone_optional_text, optional_text};

verus! {

/// An instant as the storage layer records it: seconds and nanoseconds since
/// the Unix epoch in UTC, and the offset from UTC, in seconds, of the zone it
/// is shown in.
#[derive(Clone, Copy, Debug, PartialEq, Eq, Structural)]
pub struct Timestamp {
    pub seconds: i64,
    pub nanos: u32,
    pub offset: i32,
}

impl Default for Timestamp {
    /// The Unix epoch, in UTC.
    fn default() -> (epoch: Self)
        ensures
            epoch == (Timestamp { seconds: 0, nanos: 0, offset: 0 }),
    {
        Timestamp { seconds: 0, nanos: 0, offset: 0 }
    }
}

/// A stored article. `slug` is unique among the stored articles and
/// `author_id` is the id of a stored user.
#[derive(Debug)]
pub struct Article {
    pub id: i32,
    pub author_id: i32,
    pub title: String,
    pub description: Option<String>,
    pub body: String,
    pub slug: String,
    pub created_at: Timestamp,
    pub updated_at: Timestamp,
}

/// The contents of an [`Article`].
pub struct ArticleSpec {
    pub id: int,
    pub author_id: int,
    pub title: Seq<char>,
    pub description: Option<Seq<char>>,
    pub body: Seq<char>,
    pub slug: Seq<char>,
    pub created_at: Timestamp,
    pub updated_at: Timestamp,
}

impl View for Article {
    type V = ArticleSpec;

    open spec fn view(&self) -> ArticleSpec {
        ArticleSpec {
            id: self.id as int,
            author_id: self.author_id as int,
            title: self.title@,
            description: optional_text(self.description),
            body: self.body@,
            slug: self.slug@,
            created_at: self.created_at,
            updated_at: self.updated_at,
        }
    }
}

impl Clone for Article {
    fn clone(&self) -> (copy: Self)
        ensures
            copy@ == self@,
    {
        Article {
            id: self.id,
            author_id: self.author_id,
            title: self.title.clone(),
            description: clone_optional_text(&self.description),
            body: self.body.clone(),
            slug: self.slug.clone(),
            created_at: self.created_at,
            updated_at: self.updated_at,
        }
    }
}

} // verus!
