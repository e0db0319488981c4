//! What each request decides, between one answer of the storage layer and the next.

pub mod article;
