//! The records that the content API returns, and their field transformers.
//!
//! Each record type has a view: the same record with sequences of characters
//! in place of strings. The display rules are stated on the views.

use vstd::prelude::*;
use crate::fields::{cover_color, first_present};

pub mod anilist_manga;
pub mod anime;

verus! {

/// What a record lacks although every transformer counts on it.
#[derive(Clone, Copy, Debug, PartialEq, Eq, Structural)]
pub enum MalformedUpstreamRecord {
    /// None of the three title variants is there.
    MissingTitle,
    /// None of the three cover images is there.
    MissingCoverImage,
    /// The record does not say whether it is an anime or a manga.
    MissingMediaType,
}

/// The three ways a title is written, as plain text.
pub struct TitleView {
    pub romaji: Option<Seq<char>>,
    pub english: Option<Seq<char>>,
    pub native: Option<Seq<char>>,
}

impl TitleView {
    /// Whether at least one variant of the title is there.
    pub open spec fn is_named(self) -> bool {
        self.romaji is Some || self.english is Some || self.native is Some
    }

    /// The title to show: romaji before english before native.
    pub open spec fn shown(self) -> Option<Seq<char>> {
        first_present(self.romaji, self.english, self.native)
    }

    /// The title to show where english is preferred: english before romaji
    /// before native.
    pub open spec fn shown_english_first(self) -> Option<Seq<char>> {
        first_present(self.english, self.romaji, self.native)
    }
}

/// The addresses of the cover images and the cover's colour, as plain text.
pub struct CoverImageView {
    pub extra_large: Option<Seq<char>>,
    pub large: Option<Seq<char>>,
    pub medium: Option<Seq<char>>,
    pub color: Option<Seq<char>>,
}

impl CoverImageView {
    /// Whether at least one image is there.
    pub open spec fn has_image(self) -> bool {
        self.extra_large is Some || self.large is Some || self.medium is Some
    }

    /// The largest image that is there.
    pub open spec fn thumbnail(self) -> Option<Seq<char>> {
        first_present(self.extra_large, self.large, self.medium)
    }

    /// The cover's colour as an RGB integer.
    pub open spec fn rgb(self) -> int {
        cover_color(self.color)
    }
}

/// A link to another site, as plain text.
pub struct ExternalLinksView {
    pub url: Seq<char>,
    pub url_type: Seq<char>,
}

} // verus!
