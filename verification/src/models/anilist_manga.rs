//! Manga records.

use vstd::prelude::*;
use crate::fields::{
    badge, badge_list, badge_list_text, badge_text, color_field, first_of, format_field,
    format_text, mal_link, mal_link_text, number_field, number_text, source_field, source_text,
    status_field, status_text,
};
use crate::models::{CoverImageView, ExternalLinksView, MalformedUpstreamRecord, TitleView};
use crate::text::{contains, contains_text, decimal_text, push_decimal, push_text, same_text};
use crate::trusted::{lowercase_of, markdown_of, titlecase_of};
use crate::utils::color::{is_hex_number, is_rgb_literal, rgb_digits, rgb_value, strip_hashes};
use crate::utils::date::{date_text, format_date};
use crate::utils::formatter::{
    bold, bold_text, code_text, italics, italics_text, link_text, linker, longest_bracket_run,
    MAX_OPEN_BRACKETS,
};
use crate::utils::markdown::{is_convertible, markdown_text, to_markdown};
use crate::utils::EMPTY_STR;

verus! {

/// One manga as the content API describes it.
#[derive(Clone, Debug)]
pub struct Manga {
    pub media_type: Option<String>,
    pub id: u32,
    pub id_mal: Option<u32>,
    pub title: Title,
    pub synonyms: Option<Vec<String>>,
    pub start_date: Option<AnilistDate>,
    pub end_date: Option<AnilistDate>,
    pub format: Option<String>,
    pub status: Option<String>,
    pub chapters: Option<u32>,
    pub volumes: Option<u32>,
    pub genres: Vec<String>,
    pub source: Option<String>,
    pub cover_image: CoverImage,
    pub average_score: Option<u32>,
    pub staff: Option<Staff>,
    pub site_url: String,
    pub external_links: Option<Vec<ExternalLinks>>,
    pub description: Option<String>,
    pub tags: Vec<Tag>,
}

/// The three ways a title is written. Upstream sends at least one.
#[derive(Clone, Debug)]
pub struct Title {
    pub romaji: Option<String>,
    pub english: Option<String>,
    pub native: Option<String>,
}

/// A date of which any part may be unknown.
#[derive(Clone, Debug)]
pub struct AnilistDate {
    pub year: Option<u32>,
    pub month: Option<u32>,
    pub day: Option<u32>,
}

/// Cover images from the largest to the smallest, and the cover's colour.
#[derive(Clone, Debug)]
pub struct CoverImage {
    pub extra_large: Option<String>,
    pub large: Option<String>,
    pub medium: Option<String>,
    pub color: Option<String>,
}

/// The people behind a manga: `edges[i]` and `nodes[i]` speak of the same
/// person.
#[derive(Clone, Debug)]
pub struct Staff {
    pub edges: Vec<Edges>,
    pub nodes: Vec<Nodes>,
}

/// One staff credit: what the person did.
#[derive(Clone, Debug)]
pub struct Edges {
    pub id: u32,
    pub role: String,
}

/// One credited person.
#[derive(Clone, Debug)]
pub struct Nodes {
    pub id: u32,
    pub name: StaffName,
    pub site_url: String,
}

/// A person's name.
#[derive(Clone, Debug)]
pub struct StaffName {
    pub full: String,
}

/// A link to another site, with the kind of site it leads to.
#[derive(Clone, Debug)]
pub struct ExternalLinks {
    pub url: String,
    pub url_type: String,
}

/// A theme that the manga is tagged with.
#[derive(Clone, Debug)]
pub struct Tag {
    pub name: String,
}

/// The document that stands in for a description that is not there: one line
/// in italics. The parser closes the tags that it finds open.
pub const NO_DESCRIPTION: &'static str = "<i>No Description Yet<i>";

/// A manga as plain values.
pub struct MangaView {
    pub media_type: Option<Seq<char>>,
    pub id: u32,
    pub id_mal: Option<u32>,
    pub title: TitleView,
    pub synonyms: Option<Seq<Seq<char>>>,
    pub start_date: Option<AnilistDate>,
    pub end_date: Option<AnilistDate>,
    pub format: Option<Seq<char>>,
    pub status: Option<Seq<char>>,
    pub chapters: Option<u32>,
    pub volumes: Option<u32>,
    pub genres: Seq<Seq<char>>,
    pub source: Option<Seq<char>>,
    pub cover_image: CoverImageView,
    pub average_score: Option<u32>,
    pub staff: Option<StaffView>,
    pub site_url: Seq<char>,
    pub external_links: Option<Seq<ExternalLinksView>>,
    pub description: Option<Seq<char>>,
    pub tags: Seq<Seq<char>>,
}

/// The staff credits as plain values.
pub struct StaffView {
    pub edges: Seq<EdgesView>,
    pub nodes: Seq<NodesView>,
}

/// One staff credit, as plain values.
pub struct EdgesView {
    pub id: u32,
    pub role: Seq<char>,
}

/// One credited person, as plain values.
pub struct NodesView {
    pub id: u32,
    pub name: Seq<char>,
    pub site_url: Seq<char>,
}

impl DeepView for Title {
    type V = TitleView;

    open spec fn deep_view(&self) -> TitleView {
        TitleView {
            romaji: self.romaji.deep_view(),
            english: self.english.deep_view(),
            native: self.native.deep_view(),
        }
    }
}

impl DeepView for AnilistDate {
    type V = AnilistDate;

    open spec fn deep_view(&self) -> AnilistDate {
        *self
    }
}

impl DeepView for CoverImage {
    type V = CoverImageView;

    open spec fn deep_view(&self) -> CoverImageView {
        CoverImageView {
            extra_large: self.extra_large.deep_view(),
            large: self.large.deep_view(),
            medium: self.medium.deep_view(),
            color: self.color.deep_view(),
        }
    }
}

impl DeepView for Edges {
    type V = EdgesView;

    open spec fn deep_view(&self) -> EdgesView {
        EdgesView { id: self.id, role: self.role@ }
    }
}

impl DeepView for StaffName {
    type V = Seq<char>;

    open spec fn deep_view(&self) -> Seq<char> {
        self.full@
    }
}

impl DeepView for Nodes {
    type V = NodesView;

    open spec fn deep_view(&self) -> NodesView {
        NodesView { id: self.id, name: self.name.deep_view(), site_url: self.site_url@ }
    }
}

impl DeepView for Staff {
    type V = StaffView;

    open spec fn deep_view(&self) -> StaffView {
        StaffView { edges: self.edges.deep_view(), nodes: self.nodes.deep_view() }
    }
}

impl DeepView for ExternalLinks {
    type V = ExternalLinksView;

    open spec fn deep_view(&self) -> ExternalLinksView {
        ExternalLinksView { url: self.url@, url_type: self.url_type@ }
    }
}

impl DeepView for Tag {
    type V = Seq<char>;

    open spec fn deep_view(&self) -> Seq<char> {
        self.name@
    }
}

impl DeepView for Manga {
    type V = MangaView;

    open spec fn deep_view(&self) -> MangaView {
        MangaView {
            media_type: self.media_type.deep_view(),
            id: self.id,
            id_mal: self.id_mal,
            title: self.title.deep_view(),
            synonyms: self.synonyms.deep_view(),
            start_date: self.start_date,
            end_date: self.end_date,
            format: self.format.deep_view(),
            status: self.status.deep_view(),
            chapters: self.chapters,
            volumes: self.volumes,
            genres: self.genres.deep_view(),
            source: self.source.deep_view(),
            cover_image: self.cover_image.deep_view(),
            average_score: self.average_score,
            staff: self.staff.deep_view(),
            site_url: self.site_url@,
            external_links: self.external_links.deep_view(),
            description: self.description.deep_view(),
            tags: self.tags.deep_view(),
        }
    }
}

impl View for Manga {
    type V = MangaView;

    open spec fn view(&self) -> MangaView {
        self.deep_view()
    }
}

impl AnilistDate {
    /// Whether year, month and day are all known.
    pub open spec fn is_complete(&self) -> bool {
        self.year is Some && self.month is Some && self.day is Some
    }

    /// The date as shown, with 0 for each unknown part.
    pub open spec fn text(&self) -> Seq<char> {
        date_text(part_or_zero(self.year), part_or_zero(self.month), part_or_zero(self.day))
    }

    fn is_known(&self) -> (known: bool)
        ensures
            known == self.is_complete(),
    {
        self.year.is_some() && self.month.is_some() && self.day.is_some()
    }

    fn render(&self) -> (out: String)
        ensures
            out@ == self.text(),
    {
        format_date(part(self.year), part(self.month), part(self.day))
    }
}

/// A part of a date, or 0 where it is unknown.
pub open spec fn part_or_zero(value: Option<u32>) -> nat {
    match value {
        Some(n) => n as nat,
        None => 0,
    }
}

fn part(value: Option<u32>) -> (n: u32)
    ensures
        n == part_or_zero(value),
{
    match value {
        Some(n) => n,
        None => 0,
    }
}

/// The date `date` as shown; a date that is not there shows as all zeros.
pub open spec fn anilist_date_text(date: Option<AnilistDate>) -> Seq<char> {
    match date {
        Some(known) => known.text(),
        None => date_text(0, 0, 0),
    }
}

/// The start date, followed by ` - ` and the end date where the end date is
/// known in full.
pub open spec fn date_range_text(start: Option<AnilistDate>, end: Option<AnilistDate>) -> Seq<
    char,
> {
    if end is Some && end.unwrap().is_complete() {
        anilist_date_text(start) + " - "@ + anilist_date_text(end)
    } else {
        anilist_date_text(start)
    }
}

/// The index of the last role that holds `marker`, or 0 where none does.
/// `lowered_roles` are the roles in lower case.
pub open spec fn last_role_with(lowered_roles: Seq<Seq<char>>, marker: Seq<char>) -> int
    decreases lowered_roles.len(),
{
    if lowered_roles.len() == 0 {
        0
    } else if contains_text(lowered_roles.last(), marker) {
        lowered_roles.len() - 1
    } else {
        last_role_with(lowered_roles.drop_last(), marker)
    }
}

/// The writer and the illustrator as badges joined by ` x `, or one badge
/// where both names are the same.
pub open spec fn credit_pair_text(writer: Seq<char>, artist: Seq<char>) -> Seq<char> {
    if writer == artist {
        badge_text(writer)
    } else {
        badge_text(writer) + " x "@ + badge_text(artist)
    }
}

impl StaffView {
    /// The role of each credit, in lower case.
    pub open spec fn lowered_roles(self) -> Seq<Seq<char>> {
        self.edges.map_values(|edge: EdgesView| lowercase_of(edge.role))
    }

    /// The full name of each credit.
    pub open spec fn names(self) -> Seq<Seq<char>> {
        self.nodes.map_values(|node: NodesView| node.name)
    }

    /// Whether both lists are filled and pair up one to one.
    pub open spec fn is_resolvable(self) -> bool {
        self.edges.len() > 0 && self.edges.len() == self.nodes.len()
    }

    /// The credit of the writer: the last one whose role names the story, or
    /// the first credit where none does.
    pub open spec fn writer_index(self) -> int {
        last_role_with(self.lowered_roles(), "story"@)
    }

    /// The credit of the illustrator: the last one whose role names the art,
    /// or the first credit where none does.
    pub open spec fn artist_index(self) -> int {
        last_role_with(self.lowered_roles(), "art"@)
    }

    /// The name of the writer.
    pub open spec fn writer(self) -> Seq<char> {
        self.names()[self.writer_index()]
    }

    /// The name of the illustrator.
    pub open spec fn artist(self) -> Seq<char> {
        self.names()[self.artist_index()]
    }
}

/// The writer and the illustrator of a manga; the placeholder where no credit
/// can be resolved.
pub open spec fn staff_text(staff: Option<StaffView>) -> Seq<char> {
    match staff {
        Some(credits) => if credits.is_resolvable() {
            credit_pair_text(credits.writer(), credits.artist())
        } else {
            EMPTY_STR@
        },
        None => EMPTY_STR@,
    }
}

/// The index that `last_role_with` names is one of the list, if the list has
/// any entry.
pub proof fn lemma_last_role_in_range(lowered_roles: Seq<Seq<char>>, marker: Seq<char>)
    requires
        lowered_roles.len() > 0,
    ensures
        0 <= last_role_with(lowered_roles, marker) < lowered_roles.len(),
    decreases lowered_roles.len(),
{
    if !contains_text(lowered_roles.last(), marker) {
        if lowered_roles.len() > 1 {
            lemma_last_role_in_range(lowered_roles.drop_last(), marker);
        } else {
            assert(last_role_with(lowered_roles.drop_last(), marker) == 0);
        }
    }
}

/// Where the story and the art are the work of one credit, the staff field
/// shows that one name, title-cased by the title-casing crate and set as
/// inline code, once. The name is one that the crate can take.
pub proof fn lemma_staff_of_one_credit(staff: StaffView)
    requires
        staff.is_resolvable(),
        staff.writer_index() == staff.artist_index(),
        longest_bracket_run(staff.writer()) <= MAX_OPEN_BRACKETS,
    ensures
        staff_text(Some(staff)) == code_text(titlecase_of(staff.writer())),
{
}

/// Where writer and illustrator bear different names, the staff field shows
/// both, each title-cased by the title-casing crate and set as inline code,
/// the writer first, with ` x ` between them. The names are such that the
/// crate can take them.
pub proof fn lemma_staff_of_two_credits(staff: StaffView)
    requires
        staff.is_resolvable(),
        staff.writer() != staff.artist(),
        longest_bracket_run(staff.writer()) <= MAX_OPEN_BRACKETS,
        longest_bracket_run(staff.artist()) <= MAX_OPEN_BRACKETS,
    ensures
        staff_text(Some(staff)) == code_text(titlecase_of(staff.writer())) + " x "@ + code_text(
            titlecase_of(staff.artist()),
        ),
{
}

/// Finds the last role that holds `marker` among roles already in lower case.
pub fn role_index(lowered_roles: &Vec<String>, marker: &str) -> (index: usize)
    ensures
        index == last_role_with(lowered_roles.deep_view(), marker@),
{
    let mut index: usize = 0;
    let mut i: usize = 0;
    while i < lowered_roles.len()
        invariant
            i <= lowered_roles.len(),
            index == last_role_with(lowered_roles.deep_view().take(i as int), marker@),
        decreases lowered_roles.len() - i,
    {
        proof {
            let all = lowered_roles.deep_view();
            assert(all.take(i + 1).drop_last() == all.take(i as int));
            assert(all.take(i + 1).last() == lowered_roles@[i as int]@);
        }
        if contains(lowered_roles[i].as_str(), marker) {
            index = i;
        }
        i += 1;
    }
    assert(lowered_roles.deep_view().take(lowered_roles.len() as int)
        == lowered_roles.deep_view());
    index
}

/// Renders the writer and the illustrator, once where they share a name.
pub fn credit_pair(writer: &str, artist: &str) -> (out: String)
    ensures
        out@ == credit_pair_text(writer@, artist@),
{
    if same_text(writer, artist) {
        badge(writer)
    } else {
        let mut out = badge(writer);
        out.append(" x ");
        out.append(badge(artist).as_str());
        out
    }
}

/// The description in Markdown, followed after an empty line by the link to
/// MyAnimeList in bold where there is one.
pub open spec fn description_text(markdown: Seq<char>, mal_url: Option<Seq<char>>) -> Seq<char> {
    match mal_url {
        Some(url) => markdown + "\n\n"@ + bold_text(link_text("MyAnimeList"@, url)),
        None => markdown,
    }
}

/// Puts the link to MyAnimeList under a description that is already in
/// Markdown.
pub fn describe(markdown: String, mal_url: Option<String>) -> (out: String)
    ensures
        out@ == description_text(markdown@, mal_url.deep_view()),
{
    match mal_url {
        Some(url) => {
            let mut out = markdown;
            out.append("\n\n");
            out.append(bold(linker("MyAnimeList".to_owned(), url)).as_str());
            out
        },
        None => markdown,
    }
}

/// For a description that the converter can take, the description field is
/// what the converter makes of it, followed, where the record has an id on
/// MyAnimeList, by an empty line and the link to MyAnimeList in bold.
pub proof fn lemma_description_of_convertible(manga: MangaView)
    requires
        manga.description matches Some(html) && is_convertible(html),
    ensures
        manga.id_mal matches Some(id) ==> manga.shown_description() == markdown_of(
            manga.description.unwrap(),
        ) + "\n\n"@ + bold_text(link_text("MyAnimeList"@, mal_link_text("manga"@, id))),
        manga.id_mal is None ==> manga.shown_description() == markdown_of(
            manga.description.unwrap(),
        ),
{
}

impl MangaView {
    /// Whether the record has what upstream promises: a title, a cover image
    /// and a media type.
    pub open spec fn well_formed(self) -> bool {
        self.title.is_named() && self.cover_image.has_image() && self.media_type is Some
    }

    /// The address of the manga on MyAnimeList, if the record has its id
    /// there.
    pub open spec fn mal_link(self) -> Option<Seq<char>> {
        match self.id_mal {
            Some(id) => Some(mal_link_text("manga"@, id)),
            None => None,
        }
    }

    /// What the date field shows.
    pub open spec fn shown_date(self) -> Seq<char> {
        date_range_text(self.start_date, self.end_date)
    }

    /// What the format field shows.
    pub open spec fn shown_format(self) -> Seq<char> {
        format_text(self.format, true)
    }

    /// What the status field shows.
    pub open spec fn shown_status(self) -> Seq<char> {
        status_text(self.status, true)
    }

    /// What the chapters field shows.
    pub open spec fn shown_chapters(self) -> Seq<char> {
        number_text(self.chapters, ""@)
    }

    /// What the volumes field shows.
    pub open spec fn shown_volumes(self) -> Seq<char> {
        number_text(self.volumes, ""@)
    }

    /// What the genres field shows.
    pub open spec fn shown_genres(self) -> Seq<char> {
        badge_list_text(self.genres, " - "@)
    }

    /// What the source field shows.
    pub open spec fn shown_source(self) -> Seq<char> {
        source_text(self.source, true)
    }

    /// What the score field shows.
    pub open spec fn shown_score(self) -> Seq<char> {
        number_text(self.average_score, "/100"@)
    }

    /// What the staff field shows.
    pub open spec fn shown_staff(self) -> Seq<char> {
        staff_text(self.staff)
    }

    /// The description in Markdown, with the link to MyAnimeList under it.
    pub open spec fn shown_description(self) -> Seq<char> {
        description_text(
            markdown_text(
                match self.description {
                    Some(html) => html,
                    None => NO_DESCRIPTION@,
                },
            ),
            self.mal_link(),
        )
    }

    /// What the tags field shows: the first tag in italics.
    pub open spec fn shown_tags(self) -> Seq<char> {
        if self.tags.len() == 0 {
            EMPTY_STR@
        } else {
            italics_text(self.tags[0])
        }
    }
}

impl Manga {
    /// Checks what upstream promises, so that a caller can turn a broken
    /// record away before it renders anything.
    pub fn validate(&self) -> (res: Result<(), MalformedUpstreamRecord>)
        ensures
            res is Ok <==> self@.well_formed(),
            res == Err::<(), _>(MalformedUpstreamRecord::MissingTitle) <==> !self@.title.is_named(),
            res == Err::<(), _>(MalformedUpstreamRecord::MissingCoverImage)
                <==> self@.title.is_named() && !self@.cover_image.has_image(),
            res == Err::<(), _>(MalformedUpstreamRecord::MissingMediaType)
                <==> self@.title.is_named() && self@.cover_image.has_image()
                && self@.media_type is None,
    {
        if self.title.romaji.is_none() && self.title.english.is_none()
            && self.title.native.is_none() {
            Err(MalformedUpstreamRecord::MissingTitle)
        } else if self.cover_image.extra_large.is_none() && self.cover_image.large.is_none()
            && self.cover_image.medium.is_none() {
            Err(MalformedUpstreamRecord::MissingCoverImage)
        } else if self.media_type.is_none() {
            Err(MalformedUpstreamRecord::MissingMediaType)
        } else {
            Ok(())
        }
    }

    /// The media type in lower case.
    pub fn get_type(&self) -> (res: String)
        requires
            self@.media_type is Some,
        ensures
            res@ == lowercase_of(self@.media_type.unwrap()),
    {
        match &self.media_type {
            Some(media_type) => media_type.as_str().to_lowercase(),
            None => String::new(),
        }
    }

    /// The id of the manga on MyAnimeList.
    pub fn get_mal_id(&self) -> (res: u32)
        requires
            self@.id_mal is Some,
        ensures
            Some(res) == self@.id_mal,
    {
        match self.id_mal {
            Some(id) => id,
            None => 0,
        }
    }

    /// The address of the manga on MyAnimeList, if the record has its id there.
    pub fn transform_mal_id(&self) -> (res: Option<String>)
        ensures
            res.deep_view() == self@.mal_link(),
    {
        match self.id_mal {
            Some(id) => Some(mal_link("manga", id)),
            None => None,
        }
    }

    /// The english title in lower case; empty where there is none.
    pub fn get_english_title(&self) -> (res: String)
        ensures
            res@ == match self@.title.english {
                Some(title) => lowercase_of(title),
                None => Seq::empty(),
            },
    {
        match &self.title.english {
            Some(title) => title.as_str().to_lowercase(),
            None => String::new(),
        }
    }

    /// The romaji title in lower case; empty where there is none.
    pub fn get_romaji_title(&self) -> (res: String)
        ensures
            res@ == match self@.title.romaji {
                Some(title) => lowercase_of(title),
                None => Seq::empty(),
            },
    {
        match &self.title.romaji {
            Some(title) => title.as_str().to_lowercase(),
            None => String::new(),
        }
    }

    /// The title to show: romaji before english before native.
    pub fn transform_romaji_title(&self) -> (res: String)
        requires
            self@.title.is_named(),
        ensures
            Some(res@) == self@.title.shown(),
    {
        first_of(&self.title.romaji, &self.title.english, &self.title.native).unwrap()
    }

    /// The title to show where english is preferred: english before romaji
    /// before native.
    pub fn transform_english_title(&self) -> (res: String)
        requires
            self@.title.is_named(),
        ensures
            Some(res@) == self@.title.shown_english_first(),
    {
        first_of(&self.title.english, &self.title.romaji, &self.title.native).unwrap()
    }

    /// The other names of the manga; none where the record has no list.
    pub fn get_synonyms(&self) -> (res: Vec<String>)
        ensures
            res.deep_view() == match self@.synonyms {
                Some(names) => names,
                None => Seq::empty(),
            },
    {
        let mut res: Vec<String> = Vec::new();
        match &self.synonyms {
            Some(names) => {
                let mut i: usize = 0;
                while i < names.len()
                    invariant
                        i <= names.len(),
                        res.deep_view() == names.deep_view().take(i as int),
                    decreases names.len() - i,
                {
                    push_text(&mut res, names[i].clone());
                    assert(res.deep_view() =~= names.deep_view().take(i + 1));
                    i += 1;
                }
                assert(names.deep_view().take(names.len() as int) == names.deep_view());
            },
            None => {
                assert(res.deep_view() =~= Seq::empty());
            },
        }
        res
    }

    /// When the manga ran: the start date, and the end date where it is
    /// known in full. An unknown part of a date is written as 0.
    pub fn transform_date(&self) -> (res: String)
        ensures
            res@ == self@.shown_date(),
    {
        let mut res = match &self.start_date {
            Some(start) => start.render(),
            None => format_date(0, 0, 0),
        };
        match &self.end_date {
            Some(end) => {
                if end.is_known() {
                    res.append(" - ");
                    res.append(end.render().as_str());
                }
            },
            None => {},
        }
        res
    }

    /// The media format: `TV` as it is, any other title-cased with spaces
    /// for its underscores.
    pub fn transform_format(&self) -> (res: String)
        ensures
            res@ == self@.shown_format(),
    {
        format_field(&self.format, true)
    }

    /// The release status: `Not Released` for every status that begins with
    /// `NOT`, any other title-cased with spaces for its underscores.
    pub fn transform_status(&self) -> (res: String)
        ensures
            res@ == self@.shown_status(),
    {
        status_field(&self.status, true)
    }

    /// The number of chapters.
    pub fn transform_chapters(&self) -> (res: String)
        ensures
            res@ == self@.shown_chapters(),
    {
        number_field(self.chapters, "")
    }

    /// The number of volumes.
    pub fn transform_volumes(&self) -> (res: String)
        ensures
            res@ == self@.shown_volumes(),
    {
        number_field(self.volumes, "")
    }

    /// The genres as badges joined by ` - `.
    pub fn transform_genres(&self) -> (res: String)
        ensures
            res@ == self@.shown_genres(),
    {
        badge_list(&self.genres, " - ")
    }

    /// The source material, title-cased with spaces for its underscores.
    pub fn transform_source(&self) -> (res: String)
        ensures
            res@ == self@.shown_source(),
    {
        source_field(&self.source, true)
    }

    /// The cover's colour as an RGB integer: six hexadecimal digits, with or
    /// without a `#` in front, give exactly their number; no colour, or a
    /// text that is no hexadecimal number, a signed one among them, gives
    /// blue. No colour is negative.
    pub fn transform_color(&self) -> (res: i32)
        ensures
            res == self@.cover_image.rgb(),
            0 <= res,
            self@.cover_image.color matches Some(text) ==> (is_rgb_literal(text) ==> res
                == rgb_value(rgb_digits(text))),
            self@.cover_image.color matches Some(text) ==> (!is_hex_number(strip_hashes(text))
                ==> res == 0x0000ff),
            self@.cover_image.color is None ==> res == 0x0000ff,
    {
        color_field(&self.cover_image.color)
    }

    /// The largest cover image that is there.
    pub fn transform_thumbnail(&self) -> (res: String)
        requires
            self@.cover_image.has_image(),
        ensures
            Some(res@) == self@.cover_image.thumbnail(),
    {
        first_of(
            &self.cover_image.extra_large,
            &self.cover_image.large,
            &self.cover_image.medium,
        ).unwrap()
    }

    /// The average score out of a hundred, as in `91/100`.
    pub fn transform_score(&self) -> (res: String)
        ensures
            res@ == self@.shown_score(),
            self@.average_score is None ==> res@ == "-"@,
            self@.average_score matches Some(n) ==> res@ == decimal_text(n as nat) + "/100"@,
    {
        number_field(self.average_score, "/100")
    }

    /// The writer and the illustrator: one badge where both bear the same
    /// name, else both badges with ` x ` between them, the writer first.
    pub fn transform_staff(&self) -> (res: String)
        ensures
            res@ == self@.shown_staff(),
            self@.staff matches Some(credits) ==> (credits.is_resolvable() ==> {
                &&& credits.writer() == credits.artist() ==> res@ == badge_text(credits.writer())
                &&& credits.writer() != credits.artist() ==> res@ == badge_text(credits.writer())
                    + " x "@ + badge_text(credits.artist())
            }),
    {
        match &self.staff {
            None => EMPTY_STR.to_owned(),
            Some(credits) => {
                let count = credits.edges.len();
                if count == 0 || count != credits.nodes.len() {
                    return EMPTY_STR.to_owned();
                }
                let ghost roles = credits.deep_view().lowered_roles();
                let mut lowered: Vec<String> = Vec::new();
                let mut i: usize = 0;
                while i < count
                    invariant
                        i <= count == credits.edges@.len(),
                        roles == credits.deep_view().lowered_roles(),
                        lowered.deep_view() == roles.take(i as int),
                    decreases count - i,
                {
                    push_text(&mut lowered, credits.edges[i].role.as_str().to_lowercase());
                    assert(roles[i as int] == lowercase_of(credits.edges@[i as int].role@));
                    assert(lowered.deep_view() =~= roles.take(i + 1));
                    i += 1;
                }
                assert(roles.take(count as int) == roles);
                let writer = role_index(&lowered, "story");
                let artist = role_index(&lowered, "art");
                proof {
                    lemma_last_role_in_range(roles, "story"@);
                    lemma_last_role_in_range(roles, "art"@);
                    assert(credits.deep_view().writer() == credits.nodes@[writer as int].name.full@);
                    assert(credits.deep_view().artist() == credits.nodes@[artist as int].name.full@);
                }
                credit_pair(
                    credits.nodes[writer].name.full.as_str(),
                    credits.nodes[artist].name.full.as_str(),
                )
            },
        }
    }

    /// The address of the manga on Anilist.
    pub fn transform_anilist(&self) -> (res: String)
        ensures
            res@ == self@.site_url,
    {
        self.site_url.clone()
    }

    /// The address of the matching anime on AniMixPlay, if the record has an
    /// id on MyAnimeList.
    pub fn build_animixplay_link(&self) -> (res: Option<String>)
        ensures
            res.deep_view() == match self@.id_mal {
                Some(id) => Some("https://animixplay.to/anime/"@ + decimal_text(id as nat)),
                None => None,
            },
    {
        match self.id_mal {
            Some(id) => {
                let mut link = "https://animixplay.to/anime/".to_owned();
                push_decimal(&mut link, id);
                Some(link)
            },
            None => None,
        }
    }

    /// The description in Markdown, with the link to MyAnimeList under it
    /// where the record has an id there.
    pub fn transform_description_and_mal_link(&self) -> (res: String)
        ensures
            res@ == self@.shown_description(),
    {
        let markdown = match &self.description {
            Some(html) => to_markdown(html.as_str()),
            None => to_markdown(NO_DESCRIPTION),
        };
        describe(markdown, self.transform_mal_id())
    }

    /// The first tag in italics; the placeholder where the manga has no tag.
    pub fn transform_tags(&self) -> (res: String)
        ensures
            res@ == self@.shown_tags(),
    {
        if self.tags.len() == 0 {
            EMPTY_STR.to_owned()
        } else {
            italics(self.tags[0].name.clone())
        }
    }
}

} // verus!
