use anilist_embed::utils::color::{parse_color, DEFAULT_COLOR};

fn std_color(text: &str) -> i32 {
    let digits = text.trim_start_matches('#');
    if digits.chars().all(|c| c.is_ascii_hexdigit()) {
        i32::from_str_radix(digits, 16).unwrap_or(0x0000ff)
    } else {
        0x0000ff
    }
}

#[test]
fn default_colour_is_blue() {
    assert_eq!(DEFAULT_COLOR, 0x0000ff);
}

#[test]
fn six_digits_give_their_number() {
    assert_eq!(parse_color("#ff0000"), 0xff0000);
    assert_eq!(parse_color("#e4a15d"), 0xe4a15d);
    assert_eq!(parse_color("E4A15D"), 0xe4a15d);
    assert_eq!(parse_color("#000000"), 0);
    assert_eq!(parse_color("#FFFFFF"), 0xffffff);
    assert_eq!(parse_color("#aBcDeF"), 0xabcdef);
    assert_eq!(parse_color("#0000ff"), 255);
}

#[test]
fn what_is_no_number_gives_blue() {
    assert_eq!(parse_color(""), 255);
    assert_eq!(parse_color("#"), 255);
    assert_eq!(parse_color("blue"), 255);
    assert_eq!(parse_color("#ff00gg"), 255);
    assert_eq!(parse_color("# ff0000"), 255);
    assert_eq!(parse_color("#ff0000 "), 255);
    assert_eq!(parse_color("ff#0000"), 255);
    assert_eq!(parse_color("0xff0000"), 255);
    assert_eq!(parse_color("+"), 255);
    assert_eq!(parse_color("-"), 255);
    assert_eq!(parse_color("\u{ff11}\u{ff12}"), 255);
}

#[test]
fn every_leading_hash_is_dropped() {
    assert_eq!(parse_color("##ff0000"), 0xff0000);
    assert_eq!(parse_color("###1"), 1);
}

#[test]
fn a_sign_is_no_digit() {
    assert_eq!(parse_color("-00ff00"), 255);
    assert_eq!(parse_color("#-00ff00"), 255);
    assert_eq!(parse_color("+00ff00"), 255);
    assert_eq!(parse_color("+ff"), 255);
    assert_eq!(parse_color("-ff"), 255);
    assert_eq!(parse_color("#-1"), 255);
    assert_eq!(parse_color("-0"), 255);
    assert_eq!(parse_color("-80000000"), 255);
    assert_eq!(parse_color("+-1"), 255);
    assert_eq!(parse_color("ff-"), 255);
}

#[test]
fn numbers_are_read_up_to_the_largest_integer() {
    assert_eq!(parse_color("7fffffff"), i32::MAX);
    assert_eq!(parse_color("80000000"), 255);
    assert_eq!(parse_color("00000000000000000012"), 0x12);
    assert_eq!(parse_color("0000000007fffffff"), i32::MAX);
    assert_eq!(parse_color("ffffffffffffffffffffffff"), 255);
    assert_eq!(parse_color("1"), 1);
    assert_eq!(parse_color("0"), 0);
}

#[test]
fn no_colour_is_negative() {
    for text in ["-1", "#-ffffff", "-7fffffff", "ffffffff", "80000000", "-", "#", "", "fffffff0"] {
        assert!(parse_color(text) >= 0, "{:?}", text);
    }
}

#[test]
fn parse_agrees_with_std() {
    let alphabet = ['#', '+', '-', '0', '7', '9', 'a', 'f', 'F', 'g', ' ', '8'];
    let mut texts: Vec<String> = vec![String::new()];
    let mut from = 0;
    for _ in 0..4 {
        let until = texts.len();
        for i in from..until {
            for c in alphabet {
                let mut next = texts[i].clone();
                next.push(c);
                texts.push(next);
            }
        }
        from = until;
    }
    for text in &texts {
        assert_eq!(parse_color(text), std_color(text), "{:?}", text);
        assert!(parse_color(text) >= 0, "{:?}", text);
    }
    for tail in ["7fffffff", "80000000", "ffffffff", "0000000001", "123456789"] {
        for head in ["", "#", "+", "-", "#-", "#+", "-#"] {
            let text = format!("{}{}", head, tail);
            assert_eq!(parse_color(&text), std_color(&text), "{:?}", text);
        }
    }
}
