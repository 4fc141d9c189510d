//! Anime records.

use vstd::prelude::*;
use crate::fields::{
    badge_list, badge_list_text, color_field, first_of, format_field, format_text, mal_link,
    mal_link_text, number_field, number_text, source_field, source_text, status_field,
    status_text,
};
use crate::models::{CoverImageView, ExternalLinksView, MalformedUpstreamRecord, TitleView};
use crate::text::{
    contains, contains_text, decimal_text, join, join_text, push_decimal, push_text, same_text,
    trim, trim_start_text, trim_text,
};
use crate::trusted::lowercase_of;
use crate::utils::color::{is_hex_number, is_rgb_literal, rgb_digits, rgb_value, strip_hashes};
use crate::utils::formatter::{link_text, linker, title_case, title_case_text};
use crate::utils::markdown::{markdown_text, to_markdown};
use crate::utils::{filled_or_placeholder, EMPTY_STR};

verus! {

/// One anime as the content API describes it.
#[derive(Clone, Debug)]
pub struct Anime {
    pub id: u32,
    pub id_mal: u32,
    pub title: Title,
    pub season: Option<String>,
    pub season_year: Option<u32>,
    pub format: Option<String>,
    pub status: Option<String>,
    pub episodes: Option<u32>,
    pub duration: Option<u32>,
    pub genres: Vec<String>,
    pub source: Option<String>,
    pub cover_image: CoverImage,
    pub average_score: Option<u32>,
    pub studios: Option<Studios>,
    pub site_url: String,
    pub external_links: Option<Vec<ExternalLinks>>,
    pub trailer: Option<Trailer>,
    pub description: String,
}

/// The three ways a title is written. Upstream sends at least one.
#[derive(Clone, Debug)]
pub struct Title {
    pub romaji: Option<String>,
    pub english: Option<String>,
    pub native: Option<String>,
}

/// Cover images from the largest to the smallest, and the cover's colour.
#[derive(Clone, Debug)]
pub struct CoverImage {
    pub extra_large: Option<String>,
    pub large: Option<String>,
    pub medium: Option<String>,
    pub color: Option<String>,
}

/// The studios behind an anime: `edges[i]` and `nodes[i]` speak of the same
/// studio.
#[derive(Clone, Debug)]
pub struct Studios {
    pub edges: Vec<Edges>,
    pub nodes: Vec<Nodes>,
}

/// One studio credit: whether the studio led the production.
#[derive(Clone, Debug)]
pub struct Edges {
    pub id: u32,
    pub is_main: bool,
}

/// One credited studio.
#[derive(Clone, Debug)]
pub struct Nodes {
    pub id: u32,
    pub name: String,
}

/// A link to another site, with the kind of site it leads to.
#[derive(Clone, Debug)]
pub struct ExternalLinks {
    pub url: String,
    pub url_type: String,
}

/// A trailer: the video's id on the site that hosts it.
#[derive(Clone, Debug)]
pub struct Trailer {
    pub id: String,
    pub site: String,
}

/// An anime as plain values.
pub struct AnimeView {
    pub id: u32,
    pub id_mal: u32,
    pub title: TitleView,
    pub season: Option<Seq<char>>,
    pub season_year: Option<u32>,
    pub format: Option<Seq<char>>,
    pub status: Option<Seq<char>>,
    pub episodes: Option<u32>,
    pub duration: Option<u32>,
    pub genres: Seq<Seq<char>>,
    pub source: Option<Seq<char>>,
    pub cover_image: CoverImageView,
    pub average_score: Option<u32>,
    pub studios: Option<StudiosView>,
    pub site_url: Seq<char>,
    pub external_links: Option<Seq<ExternalLinksView>>,
    pub trailer: Option<TrailerView>,
    pub description: Seq<char>,
}

/// The studio credits as plain values.
pub struct StudiosView {
    pub edges: Seq<Edges>,
    pub nodes: Seq<NodesView>,
}

/// One credited studio, as plain values.
pub struct NodesView {
    pub id: u32,
    pub name: Seq<char>,
}

/// A trailer as plain text.
pub struct TrailerView {
    pub id: Seq<char>,
    pub site: Seq<char>,
}

impl DeepView for Title {
    type V = TitleView;

    open spec fn deep_view(&self) -> TitleView {
        TitleView {
            romaji: self.romaji.deep_view(),
            english: self.english.deep_view(),
            native: self.native.deep_view(),
        }
    }
}

impl DeepView for CoverImage {
    type V = CoverImageView;

    open spec fn deep_view(&self) -> CoverImageView {
        CoverImageView {
            extra_large: self.extra_large.deep_view(),
            large: self.large.deep_view(),
            medium: self.medium.deep_view(),
            color: self.color.deep_view(),
        }
    }
}

impl DeepView for Edges {
    type V = Edges;

    open spec fn deep_view(&self) -> Edges {
        *self
    }
}

impl DeepView for Nodes {
    type V = NodesView;

    open spec fn deep_view(&self) -> NodesView {
        NodesView { id: self.id, name: self.name@ }
    }
}

impl DeepView for Studios {
    type V = StudiosView;

    open spec fn deep_view(&self) -> StudiosView {
        StudiosView { edges: self.edges.deep_view(), nodes: self.nodes.deep_view() }
    }
}

impl DeepView for ExternalLinks {
    type V = ExternalLinksView;

    open spec fn deep_view(&self) -> ExternalLinksView {
        ExternalLinksView { url: self.url@, url_type: self.url_type@ }
    }
}

impl DeepView for Trailer {
    type V = TrailerView;

    open spec fn deep_view(&self) -> TrailerView {
        TrailerView { id: self.id@, site: self.site@ }
    }
}

impl DeepView for Anime {
    type V = AnimeView;

    open spec fn deep_view(&self) -> AnimeView {
        AnimeView {
            id: self.id,
            id_mal: self.id_mal,
            title: self.title.deep_view(),
            season: self.season.deep_view(),
            season_year: self.season_year,
            format: self.format.deep_view(),
            status: self.status.deep_view(),
            episodes: self.episodes,
            duration: self.duration,
            genres: self.genres.deep_view(),
            source: self.source.deep_view(),
            cover_image: self.cover_image.deep_view(),
            average_score: self.average_score,
            studios: self.studios.deep_view(),
            site_url: self.site_url@,
            external_links: self.external_links.deep_view(),
            trailer: self.trailer.deep_view(),
            description: self.description@,
        }
    }
}

impl View for Anime {
    type V = AnimeView;

    open spec fn view(&self) -> AnimeView {
        self.deep_view()
    }
}

/// The season and its year with one space between them, trimmed and
/// title-cased; the placeholder where nothing is left to show.
pub open spec fn season_text(season: Option<Seq<char>>, year: Option<u32>) -> Seq<char> {
    let name = match season {
        Some(text) => text,
        None => Seq::empty(),
    };
    let number = match year {
        Some(n) => decimal_text(n as nat),
        None => Seq::empty(),
    };
    let trimmed = trim_text(name + seq![' '] + number);
    if trimmed.len() == 0 || title_case_text(trimmed).len() == 0 {
        EMPTY_STR@
    } else {
        title_case_text(trimmed)
    }
}

/// The names of the studios whose edge is flagged as main, in order. `mains`
/// and `names` have one entry for each studio.
pub open spec fn main_names(mains: Seq<bool>, names: Seq<Seq<char>>) -> Seq<Seq<char>>
    decreases mains.len(),
{
    if mains.len() == 0 || names.len() == 0 {
        Seq::empty()
    } else if mains.last() {
        main_names(mains.drop_last(), names.drop_last()).push(names.last())
    } else {
        main_names(mains.drop_last(), names.drop_last())
    }
}

impl StudiosView {
    /// The main flag of each credit.
    pub open spec fn mains(self) -> Seq<bool> {
        self.edges.map_values(|edge: Edges| edge.is_main)
    }

    /// The studio name of each credit.
    pub open spec fn names(self) -> Seq<Seq<char>> {
        self.nodes.map_values(|node: NodesView| node.name)
    }

    /// Whether both lists are filled and pair up one to one.
    pub open spec fn is_resolvable(self) -> bool {
        self.edges.len() > 0 && self.edges.len() == self.nodes.len()
    }
}

/// The main studios as badges joined by ` x `; the placeholder where no
/// credit can be resolved or no studio is main.
pub open spec fn studios_text(studios: Option<StudiosView>) -> Seq<char> {
    match studios {
        Some(credits) => if credits.is_resolvable() {
            badge_list_text(main_names(credits.mains(), credits.names()), " x "@)
        } else {
            EMPTY_STR@
        },
        None => EMPTY_STR@,
    }
}

/// The display name of the streaming provider whose name stands in the
/// lower-cased address `lowered_url`.
pub open spec fn provider_name(lowered_url: Seq<char>) -> Option<Seq<char>> {
    if contains_text(lowered_url, "hbo"@) {
        Some("HBO"@)
    } else if contains_text(lowered_url, "netflix"@) {
        Some("Netflix"@)
    } else if contains_text(lowered_url, "crunchyroll"@) {
        Some("Crunchyroll"@)
    } else {
        None
    }
}

/// What one external link shows: a link labelled with its provider, if the
/// link is of type `streaming` and its address names a known provider.
/// `lowered_type` and `lowered_url` are the lower-case forms of the link's
/// type and address.
pub open spec fn streaming_link_text(
    url: Seq<char>,
    lowered_type: Seq<char>,
    lowered_url: Seq<char>,
) -> Option<Seq<char>> {
    if lowered_type == "streaming"@ {
        match provider_name(lowered_url) {
            Some(label) => Some(link_text(label, url)),
            None => None,
        }
    } else {
        None
    }
}

/// What the link `link` shows, if anything: type and address are compared in
/// lower case.
pub open spec fn shown_link(link: ExternalLinksView) -> Option<Seq<char>> {
    streaming_link_text(link.url, lowercase_of(link.url_type), lowercase_of(link.url))
}

/// The links of `links` that are shown, in order.
pub open spec fn shown_links(links: Seq<ExternalLinksView>) -> Seq<Seq<char>>
    decreases links.len(),
{
    if links.len() == 0 {
        Seq::empty()
    } else {
        match shown_link(links.last()) {
            Some(text) => shown_links(links.drop_last()).push(text),
            None => shown_links(links.drop_last()),
        }
    }
}

/// An external link that is not of type `streaming`, or whose address names
/// no known provider, leaves no trace: the links shown are the same with it
/// and without it.
pub proof fn lemma_unshown_link_is_dropped(links: Seq<ExternalLinksView>, i: int)
    requires
        0 <= i < links.len(),
        lowercase_of(links[i].url_type) != "streaming"@ || provider_name(
            lowercase_of(links[i].url),
        ) is None,
    ensures
        shown_links(links) == shown_links(links.remove(i)),
    decreases links.len(),
{
    if i == links.len() - 1 {
        assert(links.remove(i) == links.drop_last());
    } else {
        lemma_unshown_link_is_dropped(links.drop_last(), i);
        assert(links.remove(i).drop_last() == links.drop_last().remove(i));
        assert(links.remove(i).last() == links.last());
    }
}

/// The streaming links joined by single spaces; the placeholder where none
/// is shown.
pub open spec fn links_text(links: Option<Seq<ExternalLinksView>>) -> Seq<char> {
    match links {
        Some(list) => if shown_links(list).len() == 0 {
            EMPTY_STR@
        } else {
            join_text(shown_links(list), " "@)
        },
        None => EMPTY_STR@,
    }
}

/// The address of a trailer: `site` and `id` are taken as they come.
pub open spec fn trailer_url_text(site: Seq<char>, id: Seq<char>) -> Seq<char> {
    "https://www."@ + site + ".com/watch?v="@ + id
}

/// A link to the trailer labelled `YouTube`; `None` where there is no trailer.
pub open spec fn trailer_text(trailer: Option<TrailerView>) -> Seq<char> {
    match trailer {
        Some(video) => link_text("YouTube"@, trailer_url_text(video.site, video.id)),
        None => "None"@,
    }
}

impl AnimeView {
    /// Whether the record has what upstream promises: a title and a cover
    /// image.
    pub open spec fn well_formed(self) -> bool {
        self.title.is_named() && self.cover_image.has_image()
    }

    /// The address of the anime on MyAnimeList.
    pub open spec fn mal_link(self) -> Seq<char> {
        mal_link_text("anime"@, self.id_mal)
    }

    /// What the season field shows.
    pub open spec fn shown_season(self) -> Seq<char> {
        season_text(self.season, self.season_year)
    }

    /// What the format field shows.
    pub open spec fn shown_format(self) -> Seq<char> {
        format_text(self.format, false)
    }

    /// What the status field shows.
    pub open spec fn shown_status(self) -> Seq<char> {
        status_text(self.status, false)
    }

    /// What the episodes field shows.
    pub open spec fn shown_episodes(self) -> Seq<char> {
        number_text(self.episodes, ""@)
    }

    /// What the duration field shows.
    pub open spec fn shown_duration(self) -> Seq<char> {
        number_text(self.duration, " mins"@)
    }

    /// What the genres field shows.
    pub open spec fn shown_genres(self) -> Seq<char> {
        badge_list_text(self.genres, " - "@)
    }

    /// What the source field shows.
    pub open spec fn shown_source(self) -> Seq<char> {
        source_text(self.source, false)
    }

    /// What the score field shows.
    pub open spec fn shown_score(self) -> Seq<char> {
        number_text(self.average_score, "/100"@)
    }

    /// What the studios field shows.
    pub open spec fn shown_studios(self) -> Seq<char> {
        studios_text(self.studios)
    }

    /// What the streaming field shows.
    pub open spec fn shown_links(self) -> Seq<char> {
        links_text(self.external_links)
    }

    /// What the trailer field shows.
    pub open spec fn shown_trailer(self) -> Seq<char> {
        trailer_text(self.trailer)
    }

    /// The description in Markdown.
    pub open spec fn shown_description(self) -> Seq<char> {
        markdown_text(self.description)
    }
}

/// Names the streaming provider in an address that is already in lower case.
pub fn provider_of(lowered_url: &str) -> (label: Option<&'static str>)
    ensures
        label.deep_view() == provider_name(lowered_url@),
{
    if contains(lowered_url, "hbo") {
        Some("HBO")
    } else if contains(lowered_url, "netflix") {
        Some("Netflix")
    } else if contains(lowered_url, "crunchyroll") {
        Some("Crunchyroll")
    } else {
        None
    }
}

/// Renders one external link, given the lower-case forms of its type and of
/// its address.
pub fn streaming_link(url: &str, lowered_type: &str, lowered_url: &str) -> (out: Option<String>)
    ensures
        out.deep_view() == streaming_link_text(url@, lowered_type@, lowered_url@),
{
    if !same_text(lowered_type, "streaming") {
        return None;
    }
    match provider_of(lowered_url) {
        Some(label) => Some(linker(label.to_owned(), url.to_owned())),
        None => None,
    }
}

impl Anime {
    /// Checks what upstream promises, so that a caller can turn a broken
    /// record away before it renders anything.
    pub fn validate(&self) -> (res: Result<(), MalformedUpstreamRecord>)
        ensures
            res is Ok <==> self@.well_formed(),
            res == Err::<(), _>(MalformedUpstreamRecord::MissingTitle) <==> !self@.title.is_named(),
            res == Err::<(), _>(MalformedUpstreamRecord::MissingCoverImage)
                <==> self@.title.is_named() && !self@.cover_image.has_image(),
    {
        if self.title.romaji.is_none() && self.title.english.is_none()
            && self.title.native.is_none() {
            Err(MalformedUpstreamRecord::MissingTitle)
        } else if self.cover_image.extra_large.is_none() && self.cover_image.large.is_none()
            && self.cover_image.medium.is_none() {
            Err(MalformedUpstreamRecord::MissingCoverImage)
        } else {
            Ok(())
        }
    }

    /// The address of the anime on MyAnimeList.
    pub fn transform_mal_id(&self) -> (res: String)
        ensures
            res@ == self@.mal_link(),
    {
        mal_link("anime", self.id_mal)
    }

    /// The title to show: romaji before english before native.
    pub fn transform_title(&self) -> (res: String)
        requires
            self@.title.is_named(),
        ensures
            Some(res@) == self@.title.shown(),
            self@.title.romaji matches Some(romaji) ==> res@ == romaji,
            self@.title.romaji is None ==> (self@.title.english matches Some(english) ==> res@
                == english),
            self@.title.romaji is None && self@.title.english is None ==> Some(res@)
                == self@.title.native,
    {
        first_of(&self.title.romaji, &self.title.english, &self.title.native).unwrap()
    }

    /// The season and its year, as in `Spring 2019`; the placeholder where
    /// the record has neither.
    pub fn transform_season(&self) -> (res: String)
        ensures
            res@ == self@.shown_season(),
            (self@.season is None || self@.season == Some(Seq::<char>::empty()))
                && self@.season_year is None ==> res@ == EMPTY_STR@,
    {
        let mut joined = match &self.season {
            Some(season) => season.clone(),
            None => String::new(),
        };
        joined.push(' ');
        match self.season_year {
            Some(year) => push_decimal(&mut joined, year),
            None => {},
        }
        let trimmed = trim(joined.as_str());
        proof {
            let name = match self@.season {
                Some(text) => text,
                None => Seq::empty(),
            };
            let number = match self.season_year {
                Some(n) => decimal_text(n as nat),
                None => Seq::empty(),
            };
            assert(joined@ =~= name + seq![' '] + number);
            if name.len() == 0 && self.season_year is None {
                assert(joined@ =~= seq![' ']);
                reveal_with_fuel(trim_start_text, 2);
                assert(trim_text(joined@).len() == 0);
            }
        }
        if trimmed.as_str().is_empty() {
            EMPTY_STR.to_owned()
        } else {
            filled_or_placeholder(title_case(trimmed.as_str()))
        }
    }

    /// The media format: `TV` as it is, any other title-cased.
    pub fn transform_format(&self) -> (res: String)
        ensures
            res@ == self@.shown_format(),
    {
        format_field(&self.format, false)
    }

    /// The release status: `Not Released` for every status that begins with
    /// `NOT`, any other title-cased.
    pub fn transform_status(&self) -> (res: String)
        ensures
            res@ == self@.shown_status(),
    {
        status_field(&self.status, false)
    }

    /// The number of episodes.
    pub fn transform_episodes(&self) -> (res: String)
        ensures
            res@ == self@.shown_episodes(),
    {
        number_field(self.episodes, "")
    }

    /// The length of an episode in minutes.
    pub fn transform_duration(&self) -> (res: String)
        ensures
            res@ == self@.shown_duration(),
    {
        number_field(self.duration, " mins")
    }

    /// The genres as badges joined by ` - `.
    pub fn transform_genres(&self) -> (res: String)
        ensures
            res@ == self@.shown_genres(),
    {
        badge_list(&self.genres, " - ")
    }

    /// The source material, title-cased.
    pub fn transform_source(&self) -> (res: String)
        ensures
            res@ == self@.shown_source(),
    {
        source_field(&self.source, false)
    }

    /// The cover's colour as an RGB integer: six hexadecimal digits, with or
    /// without a `#` in front, give exactly their number; no colour, or a
    /// text that is no hexadecimal number, a signed one among them, gives
    /// blue. No colour is negative.
    pub fn transform_color(&self) -> (res: i32)
        ensures
            res == self@.cover_image.rgb(),
            0 <= res,
            self@.cover_image.color matches Some(text) ==> (is_rgb_literal(text) ==> res
                == rgb_value(rgb_digits(text))),
            self@.cover_image.color matches Some(text) ==> (!is_hex_number(strip_hashes(text))
                ==> res == 0x0000ff),
            self@.cover_image.color is None ==> res == 0x0000ff,
    {
        color_field(&self.cover_image.color)
    }

    /// The largest cover image that is there.
    pub fn transform_thumbnail(&self) -> (res: String)
        requires
            self@.cover_image.has_image(),
        ensures
            Some(res@) == self@.cover_image.thumbnail(),
    {
        first_of(
            &self.cover_image.extra_large,
            &self.cover_image.large,
            &self.cover_image.medium,
        ).unwrap()
    }

    /// The average score out of a hundred, as in `84/100`.
    pub fn transform_score(&self) -> (res: String)
        ensures
            res@ == self@.shown_score(),
            self@.average_score is None ==> res@ == "-"@,
            self@.average_score matches Some(n) ==> res@ == decimal_text(n as nat) + "/100"@,
    {
        number_field(self.average_score, "/100")
    }

    /// The main studios as badges joined by ` x `.
    pub fn transform_studios(&self) -> (res: String)
        ensures
            res@ == self@.shown_studios(),
    {
        match &self.studios {
            None => EMPTY_STR.to_owned(),
            Some(credits) => {
                let count = credits.edges.len();
                if count == 0 || count != credits.nodes.len() {
                    return EMPTY_STR.to_owned();
                }
                let ghost mains = credits.deep_view().mains();
                let ghost all_names = credits.deep_view().names();
                let mut names: Vec<String> = Vec::new();
                let mut i: usize = 0;
                while i < count
                    invariant
                        i <= count == credits.edges@.len() == credits.nodes@.len(),
                        mains == credits.deep_view().mains(),
                        all_names == credits.deep_view().names(),
                        names.deep_view() == main_names(
                            mains.take(i as int),
                            all_names.take(i as int),
                        ),
                    decreases count - i,
                {
                    proof {
                        assert(mains.take(i + 1).drop_last() == mains.take(i as int));
                        assert(all_names.take(i + 1).drop_last() == all_names.take(i as int));
                        assert(mains[i as int] == credits.edges@[i as int].is_main);
                        assert(all_names[i as int] == credits.nodes@[i as int].name@);
                    }
                    if credits.edges[i].is_main {
                        push_text(&mut names, credits.nodes[i].name.clone());
                    }
                    i += 1;
                }
                proof {
                    assert(mains.take(count as int) == mains);
                    assert(all_names.take(count as int) == all_names);
                }
                badge_list(&names, " x ")
            },
        }
    }

    /// The address of the anime on Anilist.
    pub fn transform_anilist(&self) -> (res: String)
        ensures
            res@ == self@.site_url,
    {
        self.site_url.clone()
    }

    /// Where the anime streams: a link for each external link of type
    /// `streaming` whose address names HBO, Netflix or Crunchyroll.
    pub fn transform_links(&self) -> (res: String)
        ensures
            res@ == self@.shown_links(),
    {
        match &self.external_links {
            None => EMPTY_STR.to_owned(),
            Some(links) => {
                let ghost all = links.deep_view();
                let mut shown: Vec<String> = Vec::new();
                let mut i: usize = 0;
                while i < links.len()
                    invariant
                        i <= links.len(),
                        all == links.deep_view(),
                        shown.deep_view() == shown_links(all.take(i as int)),
                    decreases links.len() - i,
                {
                    let link = &links[i];
                    let lowered_type = link.url_type.as_str().to_lowercase();
                    let lowered_url = link.url.as_str().to_lowercase();
                    proof {
                        assert(all.take(i + 1).drop_last() == all.take(i as int));
                        assert(all.take(i + 1).last() == links@[i as int].deep_view());
                    }
                    match streaming_link(
                        link.url.as_str(),
                        lowered_type.as_str(),
                        lowered_url.as_str(),
                    ) {
                        Some(text) => {
                            push_text(&mut shown, text);
                        },
                        None => {},
                    }
                    i += 1;
                }
                assert(all.take(links.len() as int) == all);
                if shown.len() == 0 {
                    EMPTY_STR.to_owned()
                } else {
                    join(&shown, " ")
                }
            },
        }
    }

    /// A link to the trailer, or `None`.
    pub fn transform_trailer(&self) -> (res: String)
        ensures
            res@ == self@.shown_trailer(),
    {
        match &self.trailer {
            None => "None".to_owned(),
            Some(trailer) => {
                let mut url = "https://www.".to_owned();
                url.append(trailer.site.as_str());
                url.append(".com/watch?v=");
                url.append(trailer.id.as_str());
                linker("YouTube".to_owned(), url)
            },
        }
    }

    /// The description, turned from HTML into Markdown.
    pub fn transform_description(&self) -> (res: String)
        ensures
            res@ == self@.shown_description(),
    {
        to_markdown(self.description.as_str())
    }
}

} // verus!
