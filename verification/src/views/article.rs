use vstd::prelude::*;
use crate::models::articles::{Article, ArticleSpec, Timestamp};
use crate::views::auth::{ProfileSpec, UserProfile};

verus! {

/// The description shown for an article that was stored without one.
pub const DEFAULT_DESCRIPTION: &'static str = "No description";

/// An article as clients see it. `body` is `None` in the compact shape, where
/// the field is left out of the answer altogether.
#[derive(Debug)]
pub struct ArticleView {
    pub slug: String,
    pub title: String,
    pub description: String,
    pub body: Option<String>,
    pub tag_list: Vec<String>,
    pub created_at: Timestamp,
    pub updated_at: Timestamp,
    pub favorited: bool,
    pub favorites_count: i32,
    pub author: UserProfile,
}

/// The contents of an [`ArticleView`].
pub struct ArticleViewSpec {
    pub slug: Seq<char>,
    pub title: Seq<char>,
    pub description: Seq<char>,
    pub body: Option<Seq<char>>,
    pub tag_list: Seq<Seq<char>>,
    pub created_at: Timestamp,
    pub updated_at: Timestamp,
    pub favorited: bool,
    pub favorites_count: int,
    pub author: ProfileSpec,
}

impl View for ArticleView {
    type V = ArticleViewSpec;

    open spec fn view(&self) -> ArticleViewSpec {
        ArticleViewSpec {
            slug: self.slug@,
            title: self.title@,
            description: self.description@,
            body: match self.body {
                Some(body) => Some(body@),
                None => None,
            },
            tag_list: self.tag_list@.map_values(|tag: String| tag@),
            created_at: self.created_at,
            updated_at: self.updated_at,
            favorited: self.favorited,
            favorites_count: self.favorites_count as int,
            author: self.author@,
        }
    }
}

/// What both shapes share: the article's own fields, the default description
/// where it has none, no tags, not favorited by anyone, and the author's
/// profile. `with_body` decides whether the body is there.
pub open spec fn view_of(article: ArticleSpec, author: ProfileSpec, with_body: bool)
    -> ArticleViewSpec {
    ArticleViewSpec {
        slug: article.slug,
        title: article.title,
        description: match article.description {
            Some(description) => description,
            None => DEFAULT_DESCRIPTION@,
        },
        body: if with_body {
            Some(article.body)
        } else {
            None
        },
        tag_list: Seq::empty(),
        created_at: article.created_at,
        updated_at: article.updated_at,
        favorited: false,
        favorites_count: 0,
        author,
    }
}

/// The full shape of `article` by `author`: the body is there.
pub open spec fn full_view_of(article: ArticleSpec, author: ProfileSpec) -> ArticleViewSpec {
    view_of(article, author, true)
}

/// The compact shape of `article` by `author`: the body is left out.
pub open spec fn compact_view_of(article: ArticleSpec, author: ProfileSpec) -> ArticleViewSpec {
    view_of(article, author, false)
}

impl ArticleView {
    /// Projects a stored article and its author's profile to the full shape.
    pub fn from(article: Article, author: UserProfile) -> (view: Self)
        ensures
            view@ == full_view_of(article@, author@),
    {
        let view = ArticleView {
            slug: article.slug,
            title: article.title,
            description: match article.description {
                Some(description) => description,
                None => DEFAULT_DESCRIPTION.to_owned(),
            },
            body: Some(article.body),
            author: author,
            created_at: article.created_at,
            updated_at: article.updated_at,
            tag_list: Vec::new(),
            favorited: false,
            favorites_count: 0,
        };
        assert(view@.tag_list =~= Seq::empty());
        view
    }

    /// Projects a stored article and its author's profile to the compact
    /// shape, for lists: as [`ArticleView::from`], without the body.
    pub fn compact_from(article: Article, author: UserProfile) -> (view: Self)
        ensures
            view@ == compact_view_of(article@, author@),
    {
        let mut view = Self::from(article, author);
        view.body = None;
        view
    }
}

/// The full shape holds the article's body exactly as it is stored; the
/// compact shape holds none; and the two agree on every other field.
pub proof fn lemma_shapes_differ_in_body_only(article: ArticleSpec, author: ProfileSpec)
    ensures
        full_view_of(article, author).body == Some(article.body),
        compact_view_of(article, author).body is None,
        compact_view_of(article, author) == (ArticleViewSpec {
            body: None,
            ..full_view_of(article, author)
        }),
{
}

} // verus!
