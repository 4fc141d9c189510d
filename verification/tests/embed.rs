use anilist_embed::commands::anime::{build_message_from_anime, Embed};
use anilist_embed::models::anime::{Anime, CoverImage, Title};

fn bare() -> Anime {
    Anime {
        id: 1,
        id_mal: 1,
        title: Title { romaji: None, english: None, native: Some("Cowboy Bebop".to_string()) },
        season: None,
        season_year: None,
        format: None,
        status: None,
        episodes: None,
        duration: None,
        genres: Vec::new(),
        source: None,
        cover_image: CoverImage {
            extra_large: None,
            large: None,
            medium: Some("https://img.example/m.jpg".to_string()),
            color: None,
        },
        average_score: None,
        studios: None,
        site_url: "https://anilist.co/anime/1".to_string(),
        external_links: None,
        trailer: None,
        description: "Space <i>jazz</i>.".to_string(),
    }
}

fn shown(embed: &Embed) -> Vec<(String, String, bool)> {
    embed.fields.iter().map(|f| (f.name.clone(), f.value.clone(), f.inline)).collect()
}

fn row(name: &str, value: &str, inline: bool) -> (String, String, bool) {
    (name.to_string(), value.to_string(), inline)
}

#[test]
fn embed_of_a_bare_record_shows_placeholders() {
    let embed = build_message_from_anime(&bare());
    assert_eq!(embed.colour, 0x0000ff);
    assert_eq!(embed.title, "Cowboy Bebop");
    assert_eq!(embed.description, "Space *jazz*.");
    assert_eq!(embed.footer, "https://www.myanimelist.net/anime/1");
    assert_eq!(embed.thumbnail, "https://img.example/m.jpg");
    assert_eq!(
        shown(&embed),
        vec![
            row("Type", "Anime", true),
            row("Status", "-", true),
            row("Season", "-", true),
            row("Format", "-", true),
            row("Episodes", "-", true),
            row("Duration", "-", true),
            row("Source", "-", true),
            row("Average Score", "-", true),
            row("Genres", "-", false),
            row("Studios", "-", false),
            row("Anilist", "https://anilist.co/anime/1", false),
            row("Streaming At", "-", false),
            row("Trailer", "None", false),
        ]
    );
}

#[test]
fn embed_of_a_full_record_shows_every_field_in_order() {
    let mut anime = bare();
    anime.title.romaji = Some("Cowboy Bebop".to_string());
    anime.season = Some("SPRING".to_string());
    anime.season_year = Some(1998);
    anime.format = Some("TV".to_string());
    anime.status = Some("FINISHED".to_string());
    anime.episodes = Some(26);
    anime.duration = Some(24);
    anime.genres = vec!["Action".to_string(), "Sci-Fi".to_string()];
    anime.source = Some("VIDEO_GAME".to_string());
    anime.cover_image.color = Some("#f1785d".to_string());
    anime.average_score = Some(86);
    let embed = build_message_from_anime(&anime);
    assert_eq!(embed.colour, 0xf1785d);
    assert_eq!(
        shown(&embed)[..9].to_vec(),
        vec![
            row("Type", "Anime", true),
            row("Status", "Finished", true),
            row("Season", "Spring 1998", true),
            row("Format", "TV", true),
            row("Episodes", "26", true),
            row("Duration", "24 mins", true),
            row("Source", "Video_game", true),
            row("Average Score", "86/100", true),
            row("Genres", "`Action` - `Sci-Fi`", false),
        ]
    );
    assert_eq!(embed.fields.len(), 13);
}
