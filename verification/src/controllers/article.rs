//! The article requests. The storage layer is asked outside this library; each
//! function here takes what it answered and decides what comes next: the page
//! to ask for, the row to store, the view to send, or the failure.

use std::collections::HashMap;
use vstd::prelude::*;
use crate::authors::{authors_resolved, profile_views, profiles_by_id, resolve_authors};
use crate::errors::Error;
use crate::models::articles::{Article, ArticleSpec, Timestamp};
use crate::models::text::{clone_optional_text, optional_text};
use crate::models::users::User;
use crate::slugs::{has_ascii_alphanumeric, is_url_safe, slug_of, slugify};
use crate::views::article::{compact_view_of, full_view_of, ArticleView, ArticleViewSpec};
use crate::views::auth::{profile_of, ProfileSpec, UserProfile};

verus! {

/// The fields of an article that an update replaces.
#[derive(Debug)]
pub struct Params {
    pub title: String,
    pub description: Option<String>,
    pub body: String,
    pub slug: String,
}

/// `article` with the four fields that an update replaces set to the given
/// values. The id, the author and the timestamps stay.
pub open spec fn updated_article(
    article: ArticleSpec,
    title: Seq<char>,
    description: Option<Seq<char>>,
    body: Seq<char>,
    slug: Seq<char>,
) -> ArticleSpec {
    ArticleSpec { title, description, body, slug, ..article }
}

impl Params {
    /// `item` as it is after these params were applied to it.
    pub open spec fn applied_to(&self, item: ArticleSpec) -> ArticleSpec {
        updated_article(item, self.title@, optional_text(self.description), self.body@, self.slug@)
    }

    /// Replaces title, description, body and slug of `item`.
    pub fn update(&self, item: &mut Article)
        ensures
            final(item)@ == self.applied_to(old(item)@),
    {
        item.title = self.title.clone();
        item.description = clone_optional_text(&self.description);
        item.body = self.body.clone();
        item.slug = self.slug.clone();
    }
}

/// The article that a lookup found, or `NotFound` where it found none.
pub fn load_item(found: Option<Article>) -> (item: Result<Article, Error>)
    ensures
        match found {
            Some(article) => item == Ok::<Article, Error>(article),
            None => item == Err::<Article, Error>(Error::NotFound),
        },
{
    match found {
        Some(article) => Ok(article),
        None => Err(Error::NotFound),
    }
}

/// The row to store for an update: the article that the lookup found, with
/// `params` applied. `NotFound` where the lookup found none.
pub fn update(found: Option<Article>, params: &Params) -> (item: Result<Article, Error>)
    ensures
        match found {
            Some(article) => item is Ok && item->Ok_0@ == params.applied_to(article@),
            None => item == Err::<Article, Error>(Error::NotFound),
        },
{
    let mut item = load_item(found)?;
    params.update(&mut item);
    Ok(item)
}

/// The answer for one article: the full view of the article that the lookup
/// by slug found, by the author that the lookup by its `author_id` found.
/// `NotFound` where either lookup found nothing.
pub fn get_by_slug(article: Option<Article>, author: Option<User>) -> (response: Result<
    ArticleView,
    Error,
>)
    ensures
        match (article, author) {
            (Some(article), Some(author)) => response is Ok && response->Ok_0@ == full_view_of(
                article@,
                profile_of(author@),
            ),
            _ => response == Err::<ArticleView, Error>(Error::NotFound),
        },
{
    let article = load_item(article)?;
    match author {
        Some(author) => Ok(ArticleView::from(article, UserProfile::new(author))),
        None => Err(Error::NotFound),
    }
}

/// The page of the listing that a request asks for.
#[derive(Debug)]
pub struct ListRecentQueryParams {
    pub offset: Option<u64>,
    pub limit: Option<u64>,
}

/// The page to ask the storage layer for: the articles by `created_at`,
/// newest first, and those of one instant by id, larger first; `limit` of
/// them at most, after the first `offset` (after none where `offset` is
/// `None`).
#[derive(Clone, Copy, Debug, PartialEq, Eq, Structural)]
pub struct PageQuery {
    pub offset: Option<u64>,
    pub limit: u64,
}

/// The number of articles on a page where the request names none.
pub const DEFAULT_LIMIT: u64 = 10;

/// The largest number of articles on a page, whatever the request names.
pub const MAX_LIMIT: u64 = 100;

/// The page size for a requested `limit`: the default where none is named,
/// and never more than the maximum.
pub open spec fn page_limit(limit: Option<u64>) -> u64 {
    match limit {
        None => DEFAULT_LIMIT,
        Some(limit) => if limit > MAX_LIMIT {
            MAX_LIMIT
        } else {
            limit
        },
    }
}

/// The page that a request with this offset and limit asks for: the offset as
/// it came, the limit clamped.
pub open spec fn page_of(offset: Option<u64>, limit: Option<u64>) -> PageQuery {
    PageQuery { offset, limit: page_limit(limit) }
}

impl ListRecentQueryParams {
    /// The page to ask the storage layer for.
    pub fn page(&self) -> (query: PageQuery)
        ensures
            query == page_of(self.offset, self.limit),
            query.limit <= MAX_LIMIT,
    {
        let limit: u64 = match self.limit {
            None => DEFAULT_LIMIT,
            Some(limit) => if limit > MAX_LIMIT {
                MAX_LIMIT
            } else {
                limit
            },
        };
        PageQuery { offset: self.offset, limit }
    }
}

/// A request for the maximum or more, at any offset, asks for the same page
/// as a request for the maximum itself: no page is larger than the maximum.
pub proof fn lemma_limit_is_clamped(offset: Option<u64>, limit: u64)
    requires
        limit >= MAX_LIMIT,
    ensures
        page_of(offset, Some(limit)) == page_of(offset, Some(MAX_LIMIT)),
        page_of(offset, Some(limit)).limit == MAX_LIMIT,
{
}

/// No page is larger than the maximum, and a limit within it is kept as it
/// came.
pub proof fn lemma_page_limit_bounds(limit: Option<u64>)
    ensures
        page_limit(limit) <= MAX_LIMIT,
        limit is None ==> page_limit(limit) == DEFAULT_LIMIT,
        limit is Some && limit->Some_0 <= MAX_LIMIT ==> page_limit(limit) == limit->Some_0,
{
}

/// One page of the listing, with the number of all stored articles.
#[derive(Debug)]
pub struct ArticleList {
    pub articles: Vec<ArticleView>,
    pub articles_count: u64,
}

/// The contents of an [`ArticleList`].
pub struct ArticleListSpec {
    pub articles: Seq<ArticleViewSpec>,
    pub articles_count: int,
}

impl View for ArticleList {
    type V = ArticleListSpec;

    open spec fn view(&self) -> ArticleListSpec {
        ArticleListSpec {
            articles: self.articles@.map_values(|view: ArticleView| view@),
            articles_count: self.articles_count as int,
        }
    }
}

/// The compact views of `articles`, in their order, each with the profile
/// that `authors` holds for its author.
pub open spec fn page_views(articles: Seq<Article>, authors: Map<i32, ProfileSpec>) -> Seq<
    ArticleViewSpec,
> {
    Seq::new(
        articles.len(),
        |k: int| compact_view_of(articles[k]@, authors[articles[k].author_id]),
    )
}

/// The listing for a page of articles: `NotFound` where the author of one of
/// them is not among `authors`; else their compact views, in the order
/// given, with `total_count` as the number of all articles.
pub open spec fn listing_of(
    articles: Seq<Article>,
    authors: Map<i32, ProfileSpec>,
    total_count: u64,
) -> Result<ArticleListSpec, Error> {
    if authors_resolved(articles, authors) {
        Ok(
            ArticleListSpec {
                articles: page_views(articles, authors),
                articles_count: total_count as int,
            },
        )
    } else {
        Err(Error::NotFound)
    }
}

/// What a result holds, where it is a listing.
pub open spec fn listing_view(response: Result<ArticleList, Error>) -> Result<
    ArticleListSpec,
    Error,
> {
    match response {
        Ok(list) => Ok(list@),
        Err(error) => Err(error),
    }
}

/// Builds the listing for a page of articles from the lookup of their
/// authors. An article whose author is missing fails the whole page: none is
/// left out in silence.
pub fn compose_page(
    articles: &Vec<Article>,
    authors: &HashMap<i32, UserProfile>,
    total_count: u64,
) -> (response: Result<ArticleList, Error>)
    ensures
        listing_view(response) == listing_of(articles@, profile_views(authors@), total_count),
{
    broadcast use vstd::std_specs::hash::group_hash_axioms;

    let ghost profiles = profile_views(authors@);
    let mut views: Vec<ArticleView> = Vec::new();
    let mut i: usize = 0;
    while i < articles.len()
        invariant
            i <= articles.len(),
            profiles == profile_views(authors@),
            views@.len() == i,
            forall|k: int| 0 <= k < i ==> profiles.contains_key((#[trigger] articles@[k]).author_id),
            forall|k: int|
                0 <= k < i ==> (#[trigger] views@[k])@ == compact_view_of(
                    articles@[k]@,
                    profiles[articles@[k].author_id],
                ),
        decreases articles.len() - i,
    {
        let id: i32 = articles[i].author_id;
        match authors.get(&id) {
            Some(author) => {
                let view = ArticleView::compact_from(articles[i].clone(), author.clone());
                views.push(view);
            },
            None => {
                assert(!profiles.contains_key(articles@[i as int].author_id));
                return Err(Error::NotFound);
            },
        }
        i = i + 1;
    }
    let list = ArticleList { articles: views, articles_count: total_count };
    assert(list@.articles =~= page_views(articles@, profiles));
    Ok(list)
}

/// The answer to a listing request, from what the storage layer returned:
/// `articles`, the page asked for by [`ListRecentQueryParams::page`];
/// `users`, the users whose ids are [`crate::authors::author_ids`] of that
/// page; and
/// `total_count`, the number of all stored articles.
pub fn list_recent(articles: &Vec<Article>, users: &Vec<User>, total_count: u64) -> (response:
    Result<ArticleList, Error>)
    ensures
        listing_view(response) == listing_of(articles@, profiles_by_id(users@), total_count),
{
    let authors = resolve_authors(users);
    compose_page(articles, &authors, total_count)
}

/// The body of a request to create an article.
#[derive(Debug)]
pub struct NewArticleRequest {
    pub article: NewArticleParams,
}

/// The fields that a new article is created from.
#[derive(Debug)]
pub struct NewArticleParams {
    pub title: String,
    pub description: Option<String>,
    pub body: String,
}

/// The fewest characters a title may have.
pub const MIN_TITLE_LEN: usize = 1;

/// The most characters a title may have.
pub const MAX_TITLE_LEN: usize = 200;

/// A title is valid where it has between one and two hundred characters.
pub open spec fn valid_title(title: Seq<char>) -> bool {
    MIN_TITLE_LEN <= title.len() <= MAX_TITLE_LEN
}

impl NewArticleParams {
    /// `ValidationError` unless the title is valid.
    pub fn validate(&self) -> (checked: Result<(), Error>)
        ensures
            valid_title(self.title@) ==> checked == Ok::<(), Error>(()),
            !valid_title(self.title@) ==> checked == Err::<(), Error>(Error::ValidationError),
    {
        let len: usize = self.title.as_str().unicode_len();
        if MIN_TITLE_LEN <= len && len <= MAX_TITLE_LEN {
            Ok(())
        } else {
            Err(Error::ValidationError)
        }
    }
}

/// The row that is stored for a new article by the author `author_id`, with
/// the given slug: title, description and body as in the request. The id and
/// both timestamps are left for the storage layer to set: the id is 0 and
/// the timestamps are the epoch.
pub open spec fn draft_of(
    author_id: i32,
    slug: Seq<char>,
    title: Seq<char>,
    description: Option<Seq<char>>,
    body: Seq<char>,
) -> ArticleSpec {
    ArticleSpec {
        id: 0,
        author_id: author_id as int,
        title,
        description,
        body,
        slug,
        created_at: Timestamp { seconds: 0, nanos: 0, offset: 0 },
        updated_at: Timestamp { seconds: 0, nanos: 0, offset: 0 },
    }
}

/// Builds the row to store for a new article from its slug and the request.
pub fn draft_article(author_id: i32, slug: String, params: NewArticleParams) -> (draft: Article)
    ensures
        draft@ == draft_of(
            author_id,
            slug@,
            params.title@,
            optional_text(params.description),
            params.body@,
        ),
{
    Article {
        id: 0,
        author_id,
        slug,
        title: params.title,
        description: params.description,
        body: params.body,
        created_at: Timestamp::default(),
        updated_at: Timestamp::default(),
    }
}

/// The row to store for a request to create an article. `author` is the user
/// that the storage layer found for the principal of the request. `NotFound`
/// where it found none; else `ValidationError` where the title is not valid;
/// else the draft, by that author, under the slug of the title. The slug is
/// made of `a`-`z`, `0`-`9` and `-`, and is not empty where the title holds an
/// ASCII letter or digit.
pub fn new_article(author: Option<&User>, request: NewArticleRequest) -> (draft: Result<
    Article,
    Error,
>)
    ensures
        author is None ==> draft == Err::<Article, Error>(Error::NotFound),
        author is Some && !valid_title(request.article.title@) ==> draft == Err::<Article, Error>(
            Error::ValidationError,
        ),
        author is Some && valid_title(request.article.title@) ==> draft is Ok && draft->Ok_0@
            == draft_of(
            author->Some_0.id,
            slug_of(request.article.title@),
            request.article.title@,
            optional_text(request.article.description),
            request.article.body@,
        ),
        draft is Ok ==> is_url_safe(draft->Ok_0.slug@),
        draft is Ok && has_ascii_alphanumeric(request.article.title@) ==> draft->Ok_0.slug@.len()
            > 0,
{
    let author_id: i32 = match author {
        Some(author) => author.id,
        None => {
            return Err(Error::NotFound);
        },
    };
    let params = request.article;
    params.validate()?;
    let slug = slugify(params.title.as_str());
    Ok(draft_article(author_id, slug, params))
}

/// How the storage layer answered the insert of a draft.
#[derive(Debug)]
pub enum InsertOutcome {
    /// The row is stored, and this is how it reads now.
    Inserted(Article),
    /// Another article has the slug already: nothing was stored.
    DuplicateSlug,
}

/// The answer to a request to create an article, once the storage layer has
/// answered the insert: the full view of the stored row by `author`, or
/// `Conflict` where the slug was taken.
pub fn created(outcome: InsertOutcome, author: User) -> (response: Result<ArticleView, Error>)
    ensures
        match outcome {
            InsertOutcome::Inserted(article) => response is Ok && response->Ok_0@ == full_view_of(
                article@,
                profile_of(author@),
            ),
            InsertOutcome::DuplicateSlug => response == Err::<ArticleView, Error>(Error::Conflict),
        },
{
    match outcome {
        InsertOutcome::Inserted(article) => Ok(ArticleView::from(article, UserProfile::new(author))),
        InsertOutcome::DuplicateSlug => Err(Error::Conflict),
    }
}

/// The public identifier of the user behind a write: the one that the
/// principal of the request carries, or `Unauthenticated` where the request
/// came without a valid principal.
pub fn require_principal(principal: Option<String>) -> (pid: Result<String, Error>)
    ensures
        match principal {
            Some(claimed) => pid == Ok::<String, Error>(claimed),
            None => pid == Err::<String, Error>(Error::Unauthenticated),
        },
{
    match principal {
        Some(claimed) => Ok(claimed),
        None => Err(Error::Unauthenticated),
    }
}

/// Every article of a listing comes in the compact shape, without its body,
/// in the place that it has on the page; and the count is the total that
/// was handed in, not the length of the page.
pub proof fn lemma_listing_is_compact(
    articles: Seq<Article>,
    authors: Map<i32, ProfileSpec>,
    total_count: u64,
)
    requires
        authors_resolved(articles, authors),
    ensures
        listing_of(articles, authors, total_count) is Ok,
        listing_of(articles, authors, total_count)->Ok_0.articles_count == total_count,
        listing_of(articles, authors, total_count)->Ok_0.articles.len() == articles.len(),
        forall|k: int|
            0 <= k < articles.len() ==> {
                let view = #[trigger] listing_of(articles, authors, total_count)->Ok_0.articles[k];
                &&& view.body is None
                &&& view.slug == articles[k].slug@
                &&& view.author == authors[articles[k].author_id]
            },
{
}

/// The slug of a draft depends on the title alone: two requests with the
/// same title get the same slug, whoever the author is and whatever the
/// description and the body are.
pub proof fn lemma_same_title_same_slug(
    title: Seq<char>,
    first_author: i32,
    first_description: Option<Seq<char>>,
    first_body: Seq<char>,
    second_author: i32,
    second_description: Option<Seq<char>>,
    second_body: Seq<char>,
)
    ensures
        draft_of(first_author, slug_of(title), title, first_description, first_body).slug
            == draft_of(second_author, slug_of(title), title, second_description, second_body).slug,
        draft_of(first_author, slug_of(title), title, first_description, first_body).slug
            == slug_of(title),
{
}

} // verus!
