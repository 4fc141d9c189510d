//! The display rules that anime and manga records share, on plain values.

use vstd::prelude::*;
use crate::text::{
    decimal_text, join, join_text, push_decimal, push_text, same_text, starts_with, starts_with_text,
    underscores_to_spaces,
};
use crate::utils::color::{
    color_value, is_hex_number, is_rgb_literal, lemma_color_of_rgb_literal, parse_color,
    rgb_digits, rgb_value, strip_hashes, DEFAULT_COLOR,
};
use crate::utils::formatter::{
    code, code_text, remove_underscores_and_titlecase, title_case, title_case_text,
};
use crate::utils::EMPTY_STR;

verus! {

/// The first of three values that is present.
pub open spec fn first_present(
    a: Option<Seq<char>>,
    b: Option<Seq<char>>,
    c: Option<Seq<char>>,
) -> Option<Seq<char>> {
    if a is Some {
        a
    } else if b is Some {
        b
    } else {
        c
    }
}

/// The first of three values that is present, in the order given.
pub fn first_of(a: &Option<String>, b: &Option<String>, c: &Option<String>) -> (out: Option<
    String,
>)
    ensures
        out.deep_view() == first_present(a.deep_view(), b.deep_view(), c.deep_view()),
{
    match a {
        Some(text) => Some(text.clone()),
        None => match b {
            Some(text) => Some(text.clone()),
            None => match c {
                Some(text) => Some(text.clone()),
                None => None,
            },
        },
    }
}

/// A count in base ten, followed by `suffix`; the placeholder where there is
/// no count.
pub open spec fn number_text(value: Option<u32>, suffix: Seq<char>) -> Seq<char> {
    match value {
        Some(n) => decimal_text(n as nat) + suffix,
        None => EMPTY_STR@,
    }
}

/// Renders an optional count with a unit behind it.
pub fn number_field(value: Option<u32>, suffix: &str) -> (out: String)
    ensures
        out@ == number_text(value, suffix@),
{
    match value {
        Some(n) => {
            let mut out = String::new();
            push_decimal(&mut out, n);
            out.append(suffix);
            out
        },
        None => EMPTY_STR.to_owned(),
    }
}

/// An upstream constant in title case. With `spaced`, its underscores become
/// spaces first.
pub open spec fn cased_text(raw: Seq<char>, spaced: bool) -> Seq<char> {
    if spaced {
        title_case_text(underscores_to_spaces(raw))
    } else {
        title_case_text(raw)
    }
}

/// Title-cases an upstream constant.
pub fn cased(raw: &str, spaced: bool) -> (out: String)
    ensures
        out@ == cased_text(raw@, spaced),
{
    if spaced {
        remove_underscores_and_titlecase(raw)
    } else {
        title_case(raw)
    }
}

/// The release status: every status that begins with `NOT` reads
/// `Not Released`, any other is title-cased.
pub open spec fn status_text(status: Option<Seq<char>>, spaced: bool) -> Seq<char> {
    match status {
        Some(raw) => if starts_with_text(raw, "NOT"@) {
            "Not Released"@
        } else {
            cased_text(raw, spaced)
        },
        None => EMPTY_STR@,
    }
}

/// Renders the release status.
pub fn status_field(status: &Option<String>, spaced: bool) -> (out: String)
    ensures
        out@ == status_text(status.deep_view(), spaced),
{
    match status {
        Some(raw) => if starts_with(raw.as_str(), "NOT") {
            "Not Released".to_owned()
        } else {
            cased(raw.as_str(), spaced)
        },
        None => EMPTY_STR.to_owned(),
    }
}

/// The media format: the acronym `TV` stays as it is, any other is
/// title-cased.
pub open spec fn format_text(format: Option<Seq<char>>, spaced: bool) -> Seq<char> {
    match format {
        Some(raw) => if raw == "TV"@ {
            raw
        } else {
            cased_text(raw, spaced)
        },
        None => EMPTY_STR@,
    }
}

/// Renders the media format.
pub fn format_field(format: &Option<String>, spaced: bool) -> (out: String)
    ensures
        out@ == format_text(format.deep_view(), spaced),
{
    match format {
        Some(raw) => if same_text(raw.as_str(), "TV") {
            raw.clone()
        } else {
            cased(raw.as_str(), spaced)
        },
        None => EMPTY_STR.to_owned(),
    }
}

/// The source material, title-cased.
pub open spec fn source_text(source: Option<Seq<char>>, spaced: bool) -> Seq<char> {
    match source {
        Some(raw) => cased_text(raw, spaced),
        None => EMPTY_STR@,
    }
}

/// Renders the source material.
pub fn source_field(source: &Option<String>, spaced: bool) -> (out: String)
    ensures
        out@ == source_text(source.deep_view(), spaced),
{
    match source {
        Some(raw) => cased(raw.as_str(), spaced),
        None => EMPTY_STR.to_owned(),
    }
}

/// A name as a badge: title-cased, then set as inline code.
pub open spec fn badge_text(name: Seq<char>) -> Seq<char> {
    code_text(title_case_text(name))
}

/// Title-cases `name` and sets it as inline code.
pub fn badge(name: &str) -> (out: String)
    ensures
        out@ == badge_text(name@),
{
    code(title_case(name))
}

/// A list of names, each as a badge, with `sep` between them; the placeholder
/// for an empty list.
pub open spec fn badge_list_text(names: Seq<Seq<char>>, sep: Seq<char>) -> Seq<char> {
    if names.len() == 0 {
        EMPTY_STR@
    } else {
        join_text(names.map_values(|name: Seq<char>| badge_text(name)), sep)
    }
}

/// Renders a list of names as badges.
pub fn badge_list(names: &Vec<String>, sep: &str) -> (out: String)
    ensures
        out@ == badge_list_text(names.deep_view(), sep@),
{
    if names.len() == 0 {
        return EMPTY_STR.to_owned();
    }
    let mut badges: Vec<String> = Vec::new();
    let mut i: usize = 0;
    while i < names.len()
        invariant
            i <= names.len(),
            badges.deep_view() == names.deep_view().take(i as int).map_values(
                |name: Seq<char>| badge_text(name),
            ),
        decreases names.len() - i,
    {
        push_text(&mut badges, badge(names[i].as_str()));
        assert(badges.deep_view() =~= names.deep_view().take(i + 1).map_values(
            |name: Seq<char>| badge_text(name),
        ));
        i += 1;
    }
    assert(names.deep_view().take(names.len() as int) == names.deep_view());
    join(&badges, sep)
}

/// The address of entry `id` on MyAnimeList, among the entries of `kind`
/// (`anime` or `manga`).
pub open spec fn mal_link_text(kind: Seq<char>, id: u32) -> Seq<char> {
    "https://www.myanimelist.net/"@ + kind + seq!['/'] + decimal_text(id as nat)
}

/// Builds the address of an entry on MyAnimeList.
pub fn mal_link(kind: &str, id: u32) -> (out: String)
    ensures
        out@ == mal_link_text(kind@, id),
{
    let mut out = "https://www.myanimelist.net/".to_owned();
    out.append(kind);
    out.push('/');
    push_decimal(&mut out, id);
    out
}

/// The colour of a cover image: the default where the record has none.
pub open spec fn cover_color(color: Option<Seq<char>>) -> int {
    match color {
        Some(text) => color_value(text),
        None => DEFAULT_COLOR as int,
    }
}

/// Reads the colour of a cover image: six hexadecimal digits, with or
/// without a `#` in front, give exactly their number; no colour, or a text
/// that is no hexadecimal number, gives the default. No colour is negative.
pub fn color_field(color: &Option<String>) -> (out: i32)
    ensures
        out == cover_color(color.deep_view()),
        0 <= out,
        color matches Some(text) ==> (is_rgb_literal(text@) ==> out == rgb_value(
            rgb_digits(text@),
        )),
        color matches Some(text) ==> (!is_hex_number(strip_hashes(text@)) ==> out
            == DEFAULT_COLOR),
        color is None ==> out == DEFAULT_COLOR,
{
    match color {
        Some(text) => {
            proof {
                if is_rgb_literal(text@) {
                    lemma_color_of_rgb_literal(text@);
                }
            }
            parse_color(text.as_str())
        },
        None => DEFAULT_COLOR,
    }
}

} // verus!
