//! The records of the storage layer, as the rest of the library reads them.

pub mod articles;
pub mod text;
pub mod users;
