//! Display fields for Anilist anime and manga records.
//!
//! A record comes from the content API with most of its fields optional. The
//! transformers in [`models`] turn each field into the text that a chat embed
//! shows, with a placeholder for what is missing, and [`commands`] lays the
//! fields of an anime out as an embed. Every function states what it returns
//! as a contract over the characters of its inputs, and Verus proves the
//! contract.
//!
//! - [`text`]: searching, trimming, joining and decimal numbers, on characters.
//! - [`utils`]: inline markup, title case, Markdown, colours and dates.
//! - [`fields`]: the rules that both kinds of record share.
//! - [`models`]: the records and their transformers.
//! - [`commands`]: the embed of the `anime` command.
//! - [`trusted`]: the contracts of the outside functions the library calls.

pub mod commands;
pub mod fields;
pub mod models;
pub mod text;
pub mod trusted;
pub mod utils;
