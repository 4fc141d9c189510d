//! What each chat command shows.

pub mod anime;
