//! The shapes that go out to clients, and the projections that build them.

pub mod article;
pub mod auth;
