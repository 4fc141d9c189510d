use anilist_embed::text::{
    chars_of, contains, decimal, is_whitespace, join, push_decimal, push_text,
    replace_underscores, same_text, starts_with, string_of, trim,
};

const SAMPLES: [&str; 14] = [
    "",
    " ",
    "a",
    "art",
    "story & art",
    "Story",
    "  padded\t\n",
    "\u{a0}\u{3000}x\u{2003}y\u{85}",
    "NOT_YET_RELEASED",
    "NOT",
    "NO",
    "https://www.crunchyroll.com/x",
    "h\u{e9}llo w\u{f6}rld",
    "__a__b__",
];

#[test]
fn chars_round_trip() {
    for s in SAMPLES {
        let chars = chars_of(s);
        assert_eq!(chars, s.chars().collect::<Vec<char>>());
        assert_eq!(string_of(&chars, 0, chars.len()), s);
    }
}

#[test]
fn string_of_takes_the_half_open_range() {
    let chars = chars_of("abcdef");
    assert_eq!(string_of(&chars, 1, 4), "bcd");
    assert_eq!(string_of(&chars, 3, 3), "");
    assert_eq!(string_of(&chars, 0, 6), "abcdef");
}

#[test]
fn decimal_of_edge_values() {
    assert_eq!(decimal(0), "0");
    assert_eq!(decimal(7), "7");
    assert_eq!(decimal(10), "10");
    assert_eq!(decimal(100), "100");
    assert_eq!(decimal(2020), "2020");
    assert_eq!(decimal(4294967295), "4294967295");
}

#[test]
fn decimal_agrees_with_std() {
    let mut n: u32 = 0;
    loop {
        assert_eq!(decimal(n), n.to_string());
        match n.checked_mul(3) {
            Some(next) => n = next + 1,
            None => break,
        }
    }
    for n in 0..2000u32 {
        assert_eq!(decimal(n), n.to_string());
    }
}

#[test]
fn whitespace_is_the_unicode_property() {
    for code in 0..=0x10ffffu32 {
        if let Some(c) = char::from_u32(code) {
            assert_eq!(is_whitespace(c), c.is_whitespace(), "U+{:04X}", code);
        }
    }
}

#[test]
fn trim_drops_whitespace_at_both_ends_only() {
    assert_eq!(trim("  WINTER 2020 "), "WINTER 2020");
    assert_eq!(trim(" 2020"), "2020");
    assert_eq!(trim("WINTER "), "WINTER");
    assert_eq!(trim(" "), "");
    assert_eq!(trim(""), "");
    assert_eq!(trim("\t a  b \n"), "a  b");
}

#[test]
fn trim_agrees_with_std() {
    for s in SAMPLES {
        assert_eq!(trim(s), s.trim());
    }
}

#[test]
fn contains_finds_a_needle_anywhere() {
    assert!(contains("story & art", "art"));
    assert!(contains("story & art", "story"));
    assert!(contains("side story", "story"));
    assert!(!contains("stor", "story"));
    assert!(!contains("s-t-o-r-y", "story"));
    assert!(contains("anything", ""));
    assert!(contains("", ""));
    assert!(!contains("", "a"));
}

#[test]
fn search_agrees_with_std() {
    for hay in SAMPLES {
        for needle in SAMPLES {
            assert_eq!(contains(hay, needle), hay.contains(needle), "{:?} in {:?}", needle, hay);
            assert_eq!(starts_with(hay, needle), hay.starts_with(needle));
            assert_eq!(same_text(hay, needle), hay == needle);
        }
    }
}

#[test]
fn starts_with_looks_at_the_front_only() {
    assert!(starts_with("NOT_YET_RELEASED", "NOT"));
    assert!(starts_with("NOT", "NOT"));
    assert!(!starts_with("NO", "NOT"));
    assert!(!starts_with("IS_NOT", "NOT"));
    assert!(starts_with("x", ""));
}

#[test]
fn replace_underscores_touches_nothing_else() {
    assert_eq!(replace_underscores("NOT_YET_RELEASED"), "NOT YET RELEASED");
    assert_eq!(replace_underscores("__a__b__"), "  a  b  ");
    assert_eq!(replace_underscores("plain-text"), "plain-text");
    assert_eq!(replace_underscores(""), "");
}

#[test]
fn join_puts_the_separator_between_neighbours() {
    let none: Vec<String> = Vec::new();
    assert_eq!(join(&none, " - "), "");
    assert_eq!(join(&vec!["a".to_string()], " - "), "a");
    assert_eq!(join(&vec!["a".to_string(), "b".to_string(), "c".to_string()], " - "), "a - b - c");
    assert_eq!(join(&vec!["".to_string(), "".to_string()], "x"), "x");
}

#[test]
fn push_decimal_appends_to_what_is_there() {
    let mut out = "id ".to_string();
    push_decimal(&mut out, 0);
    push_decimal(&mut out, 42);
    assert_eq!(out, "id 042");
}

#[test]
fn push_text_appends_one_entry() {
    let mut list = vec!["a".to_string()];
    push_text(&mut list, "b".to_string());
    assert_eq!(list, vec!["a".to_string(), "b".to_string()]);
}
