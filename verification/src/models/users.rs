use vstd::prelude::*;
use crate::models::text::{clone_optional_text, optional_text};

verus! {

/// A stored user. `name` and `email` are unique among the stored users, and
/// `pid` is the public identifier that a principal carries.
#[derive(Debug)]
pub struct User {
    pub id: i32,
    pub pid: String,
    pub name: String,
    pub email: String,
    pub bio: Option<String>,
    pub image: Option<String>,
}

/// The contents of a [`User`].
pub struct UserSpec {
    pub id: int,
    pub pid: Seq<char>,
    pub name: Seq<char>,
    pub email: Seq<char>,
    pub bio: Option<Seq<char>>,
    pub image: Option<Seq<char>>,
}

impl View for User {
    type V = UserSpec;

    open spec fn view(&self) -> UserSpec {
        UserSpec {
            id: self.id as int,
            pid: self.pid@,
            name: self.name@,
            email: self.email@,
            bio: optional_text(self.bio),
            image: optional_text(self.image),
        }
    }
}

impl Clone for User {
    fn clone(&self) -> (copy: Self)
        ensures
            copy@ == self@,
    {
        User {
            id: self.id,
            pid: self.pid.clone(),
            name: self.name.clone(),
            email: self.email.clone(),
            bio: clone_optional_text(&self.bio),
            image: clone_optional_text(&self.image),
        }
    }
}

} // verus!
