//! Article retrieval, pagination and view composition for a Conduit-style
//! blogging backend, together with the decisions of the article-creation path.
//!
//! Storage and HTTP stay outside: every function here takes what the storage
//! layer returned as plain values and says what is answered or stored next.

pub mod authors;
pub mod controllers;
pub mod errors;
pub mod models;
pub mod slugs;
pub mod views;
