//! The batch author resolver: which users to ask for, for a whole page of
//! articles at once, and the lookup from author id to profile that is built
//! from the answer.

use std::collections::HashMap;
use vstd::prelude::*;
use crate::models::articles::Article;
use crate::models::users::User;
use crate::views::auth::{profile_of, ProfileSpec, UserProfile};

verus! {

/// Some article of `articles` is by the author with this id.
pub open spec fn has_author(articles: Seq<Article>, id: i32) -> bool {
    exists|k: int| 0 <= k < articles.len() && (#[trigger] articles[k]).author_id == id
}

/// Each id is less than the one after it, so none occurs twice.
pub open spec fn strictly_ascending(ids: Seq<i32>) -> bool {
    forall|a: int, b: int| 0 <= a < b < ids.len() ==> ids[a] < ids[b]
}

/// Puts `id` into the ascending `ids`, unless it is there already.
fn insert_id(ids: &mut Vec<i32>, id: i32)
    requires
        strictly_ascending(old(ids)@),
    ensures
        strictly_ascending(final(ids)@),
        forall|other: i32|
            final(ids)@.contains(other) <==> (old(ids)@.contains(other) || other == id),
{
    let ghost before = ids@;
    let mut at: usize = 0;
    while at < ids.len() && ids[at] < id
        invariant
            at <= ids.len(),
            ids@ == before,
            forall|j: int| 0 <= j < at ==> before[j] < id,
        decreases ids.len() - at,
    {
        at = at + 1;
    }
    if at < ids.len() && ids[at] == id {
        assert(before.contains(id));
        return ;
    }
    ids.insert(at, id);
    proof {
        let after = ids@;
        assert(after == before.insert(at as int, id));
        assert(after[at as int] == id);
        assert forall|other: i32| after.contains(other) <==> (before.contains(other) || other
            == id) by {
            if after.contains(other) {
                let j = choose|j: int| 0 <= j < after.len() && after[j] == other;
                if j < at {
                    assert(before[j] == other);
                } else if j > at {
                    assert(before[j - 1] == other);
                }
            }
            if before.contains(other) {
                let j = choose|j: int| 0 <= j < before.len() && before[j] == other;
                if j < at {
                    assert(after[j] == other);
                } else {
                    assert(after[j + 1] == other);
                }
            }
        }
        assert forall|a: int, b: int| 0 <= a < b < after.len() implies after[a] < after[b] by {
            if b < at {
            } else if a > at {
                assert(before[a - 1] < before[b - 1]);
            } else if a == at {
                assert(before[b - 1] >= id);
                assert(before[b - 1] != id) by {
                    if b - 1 > at {
                        assert(before[at as int] < before[b - 1]);
                    }
                }
            } else if b == at {
            } else {
                assert(before[a] < id);
                assert(before[at as int] <= before[b - 1]) by {
                    if b - 1 > at {
                        assert(before[at as int] < before[b - 1]);
                    }
                }
            }
        }
    }
}

/// The ids of the authors of `articles`, each once, in ascending order: the
/// users to ask the storage layer for, in one query for the whole list.
pub fn author_ids(articles: &Vec<Article>) -> (ids: Vec<i32>)
    ensures
        strictly_ascending(ids@),
        forall|id: i32| ids@.contains(id) <==> has_author(articles@, id),
{
    let mut ids: Vec<i32> = Vec::new();
    let mut i: usize = 0;
    while i < articles.len()
        invariant
            i <= articles.len(),
            strictly_ascending(ids@),
            forall|id: i32| ids@.contains(id) <==> has_author(articles@.take(i as int), id),
        decreases articles.len() - i,
    {
        let ghost seen = articles@.take(i as int);
        let ghost next = articles@.take(i + 1);
        let id: i32 = articles[i].author_id;
        insert_id(&mut ids, id);
        proof {
            assert(next[i as int].author_id == id);
            assert forall|other: i32| ids@.contains(other) <==> has_author(next, other) by {
                if has_author(next, other) {
                    let k = choose|k: int| 0 <= k < next.len() && next[k].author_id == other;
                    if k < i {
                        assert(seen[k].author_id == other);
                    }
                }
                if has_author(seen, other) {
                    let k = choose|k: int| 0 <= k < seen.len() && seen[k].author_id == other;
                    assert(next[k].author_id == other);
                }
            }
        }
        i = i + 1;
    }
    assert(articles@.take(i as int) == articles@);
    ids
}

/// The profiles of `users` by user id. Where an id occurs twice, the later
/// user's profile stands.
pub open spec fn profiles_by_id(users: Seq<User>) -> Map<i32, ProfileSpec>
    decreases users.len(),
{
    if users.len() == 0 {
        Map::empty()
    } else {
        profiles_by_id(users.drop_last()).insert(users.last().id, profile_of(users.last()@))
    }
}

/// What a lookup of profiles holds, by id.
pub open spec fn profile_views(authors: Map<i32, UserProfile>) -> Map<i32, ProfileSpec> {
    authors.map_values(|profile: UserProfile| profile@)
}

/// The lookup from author id to profile, for the users that one query
/// returned.
pub fn resolve_authors(users: &Vec<User>) -> (authors: HashMap<i32, UserProfile>)
    ensures
        profile_views(authors@) == profiles_by_id(users@),
{
    broadcast use vstd::std_specs::hash::group_hash_axioms;

    let mut authors: HashMap<i32, UserProfile> = HashMap::new();
    let mut i: usize = 0;
    assert(profile_views(authors@) =~= profiles_by_id(users@.take(0)));
    while i < users.len()
        invariant
            i <= users.len(),
            profile_views(authors@) == profiles_by_id(users@.take(i as int)),
        decreases users.len() - i,
    {
        let ghost before = authors@;
        let user = users[i].clone();
        let id: i32 = user.id;
        let profile = UserProfile::new(user);
        authors.insert(id, profile);
        proof {
            let next = users@.take(i + 1);
            assert(next.drop_last() == users@.take(i as int));
            assert(next.last() == users@[i as int]);
            assert(profile_views(authors@) =~= profile_views(before).insert(id, profile@));
        }
        i = i + 1;
    }
    assert(users@.take(i as int) == users@);
    authors
}

/// The author of every article of `articles` is among `authors`.
pub open spec fn authors_resolved(articles: Seq<Article>, authors: Map<i32, ProfileSpec>) -> bool {
    forall|k: int| 0 <= k < articles.len() ==> authors.contains_key((#[trigger] articles[k]).author_id)
}

/// With the users of [`author_ids`] found, every author is resolved: where
/// the users handed in hold each id that [`author_ids`] names, the lookup
/// built from them holds the author of every article.
pub proof fn lemma_found_authors_resolve(articles: Seq<Article>, ids: Seq<i32>, users: Seq<User>)
    requires
        forall|id: i32| ids.contains(id) <==> has_author(articles, id),
        forall|id: i32|
            ids.contains(id) ==> exists|k: int| 0 <= k < users.len() && (#[trigger] users[k]).id == id,
    ensures
        authors_resolved(articles, profiles_by_id(users)),
{
    assert forall|k: int| 0 <= k < articles.len() implies profiles_by_id(users).contains_key(
        (#[trigger] articles[k]).author_id,
    ) by {
        let id = articles[k].author_id;
        assert(has_author(articles, id));
        let at = choose|at: int| 0 <= at < users.len() && (#[trigger] users[at]).id == id;
        lemma_profiles_hold_each_user(users, at);
    }
}

/// The lookup holds a profile for the id of each user that it was built
/// from.
pub proof fn lemma_profiles_hold_each_user(users: Seq<User>, at: int)
    requires
        0 <= at < users.len(),
    ensures
        profiles_by_id(users).contains_key(users[at].id),
    decreases users.len(),
{
    if at < users.len() - 1 {
        lemma_profiles_hold_each_user(users.drop_last(), at);
    }
}

/// The lookup holds profiles for the ids of the users that it was built
/// from, and for no other id.
pub proof fn lemma_profiles_hold_only_users(users: Seq<User>, id: i32)
    requires
        profiles_by_id(users).contains_key(id),
    ensures
        exists|at: int| 0 <= at < users.len() && (#[trigger] users[at]).id == id,
    decreases users.len(),
{
    if users.len() > 0 {
        if users.last().id == id {
            assert(users[users.len() - 1].id == id);
        } else {
            lemma_profiles_hold_only_users(users.drop_last(), id);
            let at = choose|at: int|
                0 <= at < users.drop_last().len() && (#[trigger] users.drop_last()[at]).id == id;
            assert(users[at].id == id);
        }
    }
}

} // verus!
