//! Slugs: the public, URL-safe identifier that an article gets from its title.

use vstd::prelude::*;

verus! {

/// The slug of a title. It depends on the title alone: the same title always
/// has the same slug.
pub uninterp spec fn slug_of(title: Seq<char>) -> Seq<char>;

/// The characters a slug is made of: `a` to `z`, `0` to `9` and `-`.
pub open spec fn is_slug_char(c: char) -> bool {
    ('a' <= c && c <= 'z') || ('0' <= c && c <= '9') || c == '-'
}

/// An ASCII letter or digit.
pub open spec fn is_ascii_alphanumeric(c: char) -> bool {
    ('a' <= c && c <= 'z') || ('A' <= c && c <= 'Z') || ('0' <= c && c <= '9')
}

/// Made of slug characters only.
pub open spec fn is_url_safe(slug: Seq<char>) -> bool {
    forall|i: int| 0 <= i < slug.len() ==> is_slug_char(#[trigger] slug[i])
}

/// Holds an ASCII letter or digit somewhere.
pub open spec fn has_ascii_alphanumeric(title: Seq<char>) -> bool {
    exists|i: int| 0 <= i < title.len() && is_ascii_alphanumeric(#[trigger] title[i])
}

/// Calls `slug::slugify`. Trusted, not proved: the result is the slug of the
/// title and of nothing else; it is made of `a`-`z`, `0`-`9` and `-` only, as
/// the function's documentation says; and it is not empty where the title
/// holds an ASCII letter or digit, each of which the function copies to the
/// slug in lower case.
#[verifier::external_body]
pub(crate) fn slugify(title: &str) -> (slug: String)
    ensures
        slug@ == slug_of(title@),
        is_url_safe(slug@),
        has_ascii_alphanumeric(title@) ==> slug@.len() > 0,
{
    slug::slugify(title)
}

} // verus!
