use realworld_loco::models::articles::{Article, Timestamp};
use realworld_loco::models::users::User;
use realworld_loco::views::article::{ArticleView, DEFAULT_DESCRIPTION};
use realworld_loco::views::auth::{
    CurrentResponse, LoginResponse, UserProfile, DEFAULT_BIO, DEFAULT_IMAGE,
};

fn user(id: i32, name: &str) -> User {
    User {
        id,
        pid: format!("pid-{}", id),
        name: name.to_string(),
        email: format!("{}@example.com", name),
        bio: None,
        image: None,
    }
}

fn article(id: i32, author_id: i32, title: &str, seconds: i64) -> Article {
    Article {
        id,
        author_id,
        title: title.to_string(),
        description: None,
        body: format!("body of {}", title),
        slug: title.to_lowercase().replace(' ', "-"),
        created_at: Timestamp { seconds, nanos: 0, offset: 0 },
        updated_at: Timestamp { seconds: seconds + 5, nanos: 7, offset: 3600 },
    }
}

#[test]
fn profile_defaults_when_bio_and_image_absent() {
    let profile = UserProfile::new(user(1, "jake"));
    assert_eq!(profile.username, "jake");
    assert_eq!(profile.bio, "No bio yet");
    assert_eq!(profile.image, "/assets/profile-default.png");
}

#[test]
fn default_texts_are_the_documented_ones() {
    assert_eq!(DEFAULT_BIO, "No bio yet");
    assert_eq!(DEFAULT_IMAGE, "/assets/profile-default.png");
    assert_eq!(DEFAULT_DESCRIPTION, "No description");
}

#[test]
fn profile_keeps_bio_and_image_that_are_set() {
    let mut jake = user(1, "jake");
    jake.bio = Some("I work at statefarm".to_string());
    jake.image = Some("https://example.com/jake.jpg".to_string());
    let profile = UserProfile::new(jake);
    assert_eq!(profile.username, "jake");
    assert_eq!(profile.bio, "I work at statefarm");
    assert_eq!(profile.image, "https://example.com/jake.jpg");
}

#[test]
fn profile_keeps_an_empty_bio() {
    let mut jake = user(1, "jake");
    jake.bio = Some(String::new());
    let profile = UserProfile::new(jake);
    assert_eq!(profile.bio, "");
    assert_eq!(profile.image, "/assets/profile-default.png");
}

#[test]
fn profile_clone_is_equal_field_by_field() {
    let profile = UserProfile::new(user(4, "anna"));
    let copy = profile.clone();
    assert_eq!(copy.username, profile.username);
    assert_eq!(copy.bio, profile.bio);
    assert_eq!(copy.image, profile.image);
}

#[test]
fn login_response_carries_token_and_defaults() {
    let mut jake = user(1, "jake");
    jake.bio = Some("ignored at login".to_string());
    let token = "jwt.token.here".to_string();
    let response = LoginResponse::new(&jake, &token);
    assert_eq!(response.user.username, "jake");
    assert_eq!(response.user.email, "jake@example.com");
    assert_eq!(response.user.token, "jwt.token.here");
    assert_eq!(response.user.image, "/assets/profile-default.png");
    assert_eq!(response.user.bio, "No bio yet");
}

#[test]
fn current_response_copies_pid_name_and_email() {
    let response = CurrentResponse::new(&user(9, "mia"));
    assert_eq!(response.pid, "pid-9");
    assert_eq!(response.name, "mia");
    assert_eq!(response.email, "mia@example.com");
}

#[test]
fn user_clone_is_equal_field_by_field() {
    let mut jake = user(1, "jake");
    jake.image = Some("x.png".to_string());
    let copy = jake.clone();
    assert_eq!(copy.id, 1);
    assert_eq!(copy.pid, jake.pid);
    assert_eq!(copy.name, jake.name);
    assert_eq!(copy.email, jake.email);
    assert_eq!(copy.bio, None);
    assert_eq!(copy.image, Some("x.png".to_string()));
}

#[test]
fn full_view_holds_the_body_and_the_fixed_fields() {
    let stored = article(3, 1, "How to train your dragon", 100);
    let view = ArticleView::from(stored, UserProfile::new(user(1, "jake")));
    assert_eq!(view.slug, "how-to-train-your-dragon");
    assert_eq!(view.title, "How to train your dragon");
    assert_eq!(view.description, "No description");
    assert_eq!(view.body, Some("body of How to train your dragon".to_string()));
    assert!(view.tag_list.is_empty());
    assert_eq!(view.created_at, Timestamp { seconds: 100, nanos: 0, offset: 0 });
    assert_eq!(view.updated_at, Timestamp { seconds: 105, nanos: 7, offset: 3600 });
    assert!(!view.favorited);
    assert_eq!(view.favorites_count, 0);
    assert_eq!(view.author.username, "jake");
    assert_eq!(view.author.bio, "No bio yet");
}

#[test]
fn full_view_keeps_a_description_that_is_set() {
    let mut stored = article(3, 1, "Dragons", 100);
    stored.description = Some("Ever wonder how?".to_string());
    let view = ArticleView::from(stored, UserProfile::new(user(1, "jake")));
    assert_eq!(view.description, "Ever wonder how?");
}

#[test]
fn full_view_keeps_an_empty_body() {
    let mut stored = article(3, 1, "Dragons", 100);
    stored.body = String::new();
    let view = ArticleView::from(stored, UserProfile::new(user(1, "jake")));
    assert_eq!(view.body, Some(String::new()));
}

#[test]
fn compact_view_leaves_the_body_out() {
    let stored = article(3, 1, "Dragons", 100);
    let view = ArticleView::compact_from(stored, UserProfile::new(user(1, "jake")));
    assert_eq!(view.body, None);
    assert_eq!(view.slug, "dragons");
    assert_eq!(view.title, "Dragons");
    assert_eq!(view.description, "No description");
    assert!(view.tag_list.is_empty());
    assert!(!view.favorited);
    assert_eq!(view.favorites_count, 0);
    assert_eq!(view.author.username, "jake");
}

#[test]
fn both_shapes_agree_outside_the_body() {
    let author = UserProfile::new(user(1, "jake"));
    let full = ArticleView::from(article(3, 1, "Dragons", 100), author.clone());
    let compact = ArticleView::compact_from(article(3, 1, "Dragons", 100), author);
    assert_eq!(full.slug, compact.slug);
    assert_eq!(full.title, compact.title);
    assert_eq!(full.description, compact.description);
    assert_eq!(full.created_at, compact.created_at);
    assert_eq!(full.updated_at, compact.updated_at);
    assert_eq!(full.author.username, compact.author.username);
    assert!(full.body.is_some());
    assert!(compact.body.is_none());
}

#[test]
fn article_clone_is_equal_field_by_field() {
    let mut stored = article(3, 1, "Dragons", 100);
    stored.description = Some("d".to_string());
    let copy = stored.clone();
    assert_eq!(copy.id, 3);
    assert_eq!(copy.author_id, 1);
    assert_eq!(copy.title, stored.title);
    assert_eq!(copy.description, stored.description);
    assert_eq!(copy.body, stored.body);
    assert_eq!(copy.slug, stored.slug);
    assert_eq!(copy.created_at, stored.created_at);
    assert_eq!(copy.updated_at, stored.updated_at);
}

#[test]
fn default_timestamp_is_the_epoch() {
    assert_eq!(Timestamp::default(), Timestamp { seconds: 0, nanos: 0, offset: 0 });
}
