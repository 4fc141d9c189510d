//! The embed that answers the `anime` command.

use vstd::prelude::*;
use crate::models::anime::{Anime, AnimeView};

verus! {

/// One named line of an embed.
#[derive(Clone, Debug)]
pub struct EmbedField {
    pub name: String,
    pub value: String,
    pub inline: bool,
}

/// A rich message as the chat platform takes it.
#[derive(Clone, Debug)]
pub struct Embed {
    /// The colour of the side bar, as a 24-bit RGB integer.
    pub colour: i32,
    pub title: String,
    pub description: String,
    pub fields: Vec<EmbedField>,
    pub footer: String,
    pub thumbnail: String,
}

/// One named line of an embed, as plain values.
pub struct EmbedFieldView {
    pub name: Seq<char>,
    pub value: Seq<char>,
    pub inline: bool,
}

/// An embed as plain values.
pub struct EmbedView {
    pub colour: int,
    pub title: Seq<char>,
    pub description: Seq<char>,
    pub fields: Seq<EmbedFieldView>,
    pub footer: Seq<char>,
    pub thumbnail: Seq<char>,
}

impl DeepView for EmbedField {
    type V = EmbedFieldView;

    open spec fn deep_view(&self) -> EmbedFieldView {
        EmbedFieldView { name: self.name@, value: self.value@, inline: self.inline }
    }
}

impl View for Embed {
    type V = EmbedView;

    open spec fn view(&self) -> EmbedView {
        EmbedView {
            colour: self.colour as int,
            title: self.title@,
            description: self.description@,
            fields: self.fields.deep_view(),
            footer: self.footer@,
            thumbnail: self.thumbnail@,
        }
    }
}

/// A field that shares its row with its neighbours.
pub open spec fn short_field(name: Seq<char>, value: Seq<char>) -> EmbedFieldView {
    EmbedFieldView { name, value, inline: true }
}

/// A field that takes a row of its own.
pub open spec fn wide_field(name: Seq<char>, value: Seq<char>) -> EmbedFieldView {
    EmbedFieldView { name, value, inline: false }
}

/// The fields of an anime embed, from top to bottom: eight short ones, then
/// five wide ones.
pub open spec fn anime_fields(anime: AnimeView) -> Seq<EmbedFieldView> {
    seq![
        short_field("Type"@, "Anime"@),
        short_field("Status"@, anime.shown_status()),
        short_field("Season"@, anime.shown_season()),
        short_field("Format"@, anime.shown_format()),
        short_field("Episodes"@, anime.shown_episodes()),
        short_field("Duration"@, anime.shown_duration()),
        short_field("Source"@, anime.shown_source()),
        short_field("Average Score"@, anime.shown_score()),
        wide_field("Genres"@, anime.shown_genres()),
        wide_field("Studios"@, anime.shown_studios()),
        wide_field("Anilist"@, anime.site_url),
        wide_field("Streaming At"@, anime.shown_links()),
        wide_field("Trailer"@, anime.shown_trailer()),
    ]
}

/// The embed of a well-formed anime: every field in its fixed place, under
/// the title and the description, with the link to MyAnimeList as the footer
/// and the largest cover image as the thumbnail.
pub open spec fn anime_embed(anime: AnimeView) -> EmbedView {
    EmbedView {
        colour: anime.cover_image.rgb(),
        title: anime.title.shown().unwrap(),
        description: anime.shown_description(),
        fields: anime_fields(anime),
        footer: anime.mal_link(),
        thumbnail: anime.cover_image.thumbnail().unwrap(),
    }
}

fn push_field(fields: &mut Vec<EmbedField>, name: &str, value: String, inline: bool)
    ensures
        final(fields).deep_view() == old(fields).deep_view().push(
            EmbedFieldView { name: name@, value: value@, inline },
        ),
{
    let ghost before = fields@;
    fields.push(EmbedField { name: name.to_owned(), value, inline });
    assert forall|j: int| 0 <= j < before.len() implies final(fields).deep_view()[j] == old(
        fields,
    ).deep_view()[j] by {
        assert(fields@[j] == before[j]);
    }
    assert(final(fields).deep_view() =~= old(fields).deep_view().push(
        EmbedFieldView { name: name@, value: value@, inline },
    ));
}

/// Lays out the embed for `anime`.
pub fn build_message_from_anime(anime: &Anime) -> (embed: Embed)
    requires
        anime@.well_formed(),
    ensures
        embed@ == anime_embed(anime@),
{
    let mut fields: Vec<EmbedField> = Vec::new();
    assert(fields.deep_view() =~= Seq::empty());
    push_field(&mut fields, "Type", "Anime".to_owned(), true);
    push_field(&mut fields, "Status", anime.transform_status(), true);
    push_field(&mut fields, "Season", anime.transform_season(), true);
    push_field(&mut fields, "Format", anime.transform_format(), true);
    push_field(&mut fields, "Episodes", anime.transform_episodes(), true);
    push_field(&mut fields, "Duration", anime.transform_duration(), true);
    push_field(&mut fields, "Source", anime.transform_source(), true);
    push_field(&mut fields, "Average Score", anime.transform_score(), true);
    push_field(&mut fields, "Genres", anime.transform_genres(), false);
    push_field(&mut fields, "Studios", anime.transform_studios(), false);
    push_field(&mut fields, "Anilist", anime.transform_anilist(), false);
    push_field(&mut fields, "Streaming At", anime.transform_links(), false);
    push_field(&mut fields, "Trailer", anime.transform_trailer(), false);
    assert(fields.deep_view() =~= anime_fields(anime@));
    Embed {
        colour: anime.transform_color(),
        title: anime.transform_title(),
        description: anime.transform_description(),
        fields,
        footer: anime.transform_mal_id(),
        thumbnail: anime.transform_thumbnail(),
    }
}

} // verus!
