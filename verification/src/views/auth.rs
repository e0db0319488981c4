use vstd::prelude::*;
use crate::models::users::{User, UserSpec};

verus! {

/// The bio shown for a user who has written none.
pub const DEFAULT_BIO: &'static str = "No bio yet";

/// The image shown for a user who has set none.
pub const DEFAULT_IMAGE: &'static str = "/assets/profile-default.png";

/// The answer to a login: the user, with the token that was issued.
#[derive(Debug)]
pub struct LoginResponse {
    pub user: LoginUser,
}

/// The user inside a [`LoginResponse`].
#[derive(Debug)]
pub struct LoginUser {
    pub username: String,
    pub email: String,
    pub token: String,
    pub image: String,
    pub bio: String,
}

/// The contents of a [`LoginUser`].
pub struct LoginUserSpec {
    pub username: Seq<char>,
    pub email: Seq<char>,
    pub token: Seq<char>,
    pub image: Seq<char>,
    pub bio: Seq<char>,
}

impl View for LoginUser {
    type V = LoginUserSpec;

    open spec fn view(&self) -> LoginUserSpec {
        LoginUserSpec {
            username: self.username@,
            email: self.email@,
            token: self.token@,
            image: self.image@,
            bio: self.bio@,
        }
    }
}

impl View for LoginResponse {
    type V = LoginUserSpec;

    open spec fn view(&self) -> LoginUserSpec {
        self.user@
    }
}

/// What a login answers for `user` and `token`: name, email and token as
/// given, with the default image and bio.
pub open spec fn login_of(user: UserSpec, token: Seq<char>) -> LoginUserSpec {
    LoginUserSpec {
        username: user.name,
        email: user.email,
        token,
        image: DEFAULT_IMAGE@,
        bio: DEFAULT_BIO@,
    }
}

impl LoginResponse {
    #[must_use]
    pub fn new(user: &User, token: &String) -> (response: Self)
        ensures
            response@ == login_of(user@, token@),
    {
        Self {
            user: LoginUser {
                username: user.name.clone(),
                email: user.email.clone(),
                token: token.clone(),
                image: DEFAULT_IMAGE.to_owned(),
                bio: DEFAULT_BIO.to_owned(),
            },
        }
    }
}

/// The answer to "who am I": the public identifier, name and email of a user.
#[derive(Debug)]
pub struct CurrentResponse {
    pub pid: String,
    pub name: String,
    pub email: String,
}

/// The contents of a [`CurrentResponse`].
pub struct CurrentSpec {
    pub pid: Seq<char>,
    pub name: Seq<char>,
    pub email: Seq<char>,
}

impl View for CurrentResponse {
    type V = CurrentSpec;

    open spec fn view(&self) -> CurrentSpec {
        CurrentSpec { pid: self.pid@, name: self.name@, email: self.email@ }
    }
}

/// What "who am I" answers for `user`.
pub open spec fn current_of(user: UserSpec) -> CurrentSpec {
    CurrentSpec { pid: user.pid, name: user.name, email: user.email }
}

impl CurrentResponse {
    #[must_use]
    pub fn new(user: &User) -> (response: Self)
        ensures
            response@ == current_of(user@),
    {
        Self { pid: user.pid.clone(), name: user.name.clone(), email: user.email.clone() }
    }
}

/// The public profile of an author, as it is shown beside each article.
#[derive(Debug)]
pub struct UserProfile {
    pub username: String,
    pub bio: String,
    pub image: String,
}

/// The contents of a [`UserProfile`].
pub struct ProfileSpec {
    pub username: Seq<char>,
    pub bio: Seq<char>,
    pub image: Seq<char>,
}

impl View for UserProfile {
    type V = ProfileSpec;

    open spec fn view(&self) -> ProfileSpec {
        ProfileSpec { username: self.username@, bio: self.bio@, image: self.image@ }
    }
}

/// The profile of `user`: the name, and bio and image where the user has
/// them, else the defaults.
pub open spec fn profile_of(user: UserSpec) -> ProfileSpec {
    ProfileSpec {
        username: user.name,
        bio: match user.bio {
            Some(bio) => bio,
            None => DEFAULT_BIO@,
        },
        image: match user.image {
            Some(image) => image,
            None => DEFAULT_IMAGE@,
        },
    }
}

impl UserProfile {
    pub fn new(user: User) -> (profile: Self)
        ensures
            profile@ == profile_of(user@),
    {
        Self {
            username: user.name,
            bio: match user.bio {
                Some(bio) => bio,
                None => DEFAULT_BIO.to_owned(),
            },
            image: match user.image {
                Some(image) => image,
                None => DEFAULT_IMAGE.to_owned(),
            },
        }
    }
}

impl Clone for UserProfile {
    fn clone(&self) -> (copy: Self)
        ensures
            copy@ == self@,
    {
        UserProfile {
            username: self.username.clone(),
            bio: self.bio.clone(),
            image: self.image.clone(),
        }
    }
}

} // verus!
