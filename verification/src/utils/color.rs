//! Cover-image colours: a hexadecimal RGB literal read as an integer.

use vstd::prelude::*;
use crate::text::chars_of;

verus! {

/// The colour shown when a record has none, or one that cannot be read: blue.
pub const DEFAULT_COLOR: i32 = 0x0000ff;

/// The value of the hexadecimal digit `c`, if it is one.
pub open spec fn hex_digit_value(c: char) -> Option<nat> {
    let u = c as u32;
    if 0x30 <= u <= 0x39 {
        Some((u - 0x30) as nat)
    } else if 0x41 <= u <= 0x46 {
        Some((u - 0x41 + 10) as nat)
    } else if 0x61 <= u <= 0x66 {
        Some((u - 0x61 + 10) as nat)
    } else {
        None
    }
}

/// Whether every character of `digits` is a hexadecimal digit.
pub open spec fn all_hex_digits(digits: Seq<char>) -> bool {
    forall|i: int| 0 <= i < digits.len() ==> (#[trigger] hex_digit_value(digits[i])) is Some
}

/// The number that `digits` write in base sixteen, most significant digit first.
pub open spec fn hex_value(digits: Seq<char>) -> nat
    decreases digits.len(),
{
    if digits.len() == 0 {
        0
    } else {
        hex_value(digits.drop_last()) * 16 + match hex_digit_value(digits.last()) {
            Some(d) => d,
            None => 0,
        }
    }
}

/// `text` without its leading `#` characters.
pub open spec fn strip_hashes(text: Seq<char>) -> Seq<char>
    decreases text.len(),
{
    if text.len() > 0 && text.first() == '#' {
        strip_hashes(text.drop_first())
    } else {
        text
    }
}

/// Whether `text` is one or more hexadecimal digits and nothing else. A
/// sign is no digit.
pub open spec fn is_hex_number(text: Seq<char>) -> bool {
    text.len() > 0 && all_hex_digits(text)
}

/// The number that `text` writes in base sixteen, if `text` is a hexadecimal
/// number that fits a 32-bit signed integer.
pub open spec fn hex_number(text: Seq<char>) -> Option<int> {
    if is_hex_number(text) && hex_value(text) <= i32::MAX {
        Some(hex_value(text) as int)
    } else {
        None
    }
}

/// The colour that `text` stands for: its number in base sixteen once the
/// leading `#` is gone, or the default where that is no number.
pub open spec fn color_value(text: Seq<char>) -> int {
    match hex_number(strip_hashes(text)) {
        Some(value) => value,
        None => DEFAULT_COLOR as int,
    }
}

/// Whether `text` is six hexadecimal digits, with or without one `#` in front.
pub open spec fn is_rgb_literal(text: Seq<char>) -> bool {
    ||| text.len() == 6 && all_hex_digits(text)
    ||| text.len() == 7 && text.first() == '#' && all_hex_digits(text.drop_first())
}

/// The six digits of an RGB literal.
pub open spec fn rgb_digits(text: Seq<char>) -> Seq<char> {
    if text.len() == 7 {
        text.drop_first()
    } else {
        text
    }
}

/// The number that the six hexadecimal digits `d` write.
pub open spec fn rgb_value(d: Seq<char>) -> nat {
    hex_digit_value(d[0]).unwrap() * 0x100000 + hex_digit_value(d[1]).unwrap() * 0x10000
        + hex_digit_value(d[2]).unwrap() * 0x1000 + hex_digit_value(d[3]).unwrap() * 0x100
        + hex_digit_value(d[4]).unwrap() * 0x10 + hex_digit_value(d[5]).unwrap()
}

/// A digit string is worth at least as much as each of its prefixes.
proof fn lemma_hex_value_prefix(digits: Seq<char>, k: int)
    requires
        0 <= k <= digits.len(),
    ensures
        hex_value(digits.take(k)) <= hex_value(digits),
    decreases digits.len(),
{
    if k == digits.len() {
        assert(digits.take(k) == digits);
    } else {
        lemma_hex_value_prefix(digits.drop_last(), k);
        assert(digits.drop_last().take(k) == digits.take(k));
    }
}

/// Appending a digit multiplies what was written by sixteen and adds the digit.
proof fn lemma_hex_value_step(digits: Seq<char>, k: int)
    requires
        0 <= k < digits.len(),
        all_hex_digits(digits),
    ensures
        hex_value(digits.take(k + 1)) == hex_value(digits.take(k)) * 16 + hex_digit_value(
            digits[k],
        ).unwrap(),
{
    assert(digits.take(k + 1).drop_last() == digits.take(k));
    assert(digits.take(k + 1).last() == digits[k]);
}

/// Six hexadecimal digits are worth the sum of their place values.
proof fn lemma_hex_value_six(d: Seq<char>)
    requires
        d.len() == 6,
        all_hex_digits(d),
    ensures
        hex_value(d) == rgb_value(d),
        rgb_value(d) <= 0xffffff,
{
    let v0 = hex_digit_value(d[0]).unwrap();
    let v1 = hex_digit_value(d[1]).unwrap();
    let v2 = hex_digit_value(d[2]).unwrap();
    let v3 = hex_digit_value(d[3]).unwrap();
    let v4 = hex_digit_value(d[4]).unwrap();
    let v5 = hex_digit_value(d[5]).unwrap();
    assert(v0 < 16 && v1 < 16 && v2 < 16 && v3 < 16 && v4 < 16 && v5 < 16);
    let h0 = hex_value(d.take(0));
    let h1 = hex_value(d.take(1));
    let h2 = hex_value(d.take(2));
    let h3 = hex_value(d.take(3));
    let h4 = hex_value(d.take(4));
    let h5 = hex_value(d.take(5));
    let h6 = hex_value(d.take(6));
    assert(h0 == 0);
    assert(h1 == h0 * 16 + v0) by {
        lemma_hex_value_step(d, 0);
    }
    assert(h2 == h1 * 16 + v1) by {
        lemma_hex_value_step(d, 1);
    }
    assert(h3 == h2 * 16 + v2) by {
        lemma_hex_value_step(d, 2);
    }
    assert(h4 == h3 * 16 + v3) by {
        lemma_hex_value_step(d, 3);
    }
    assert(h5 == h4 * 16 + v4) by {
        lemma_hex_value_step(d, 4);
    }
    assert(h6 == h5 * 16 + v5) by {
        lemma_hex_value_step(d, 5);
    }
    assert(d.take(6) == d);
    assert(rgb_value(d) == v0 * 0x100000 + v1 * 0x10000 + v2 * 0x1000 + v3 * 0x100 + v4 * 0x10
        + v5);
}

/// A colour written as six hexadecimal digits, with or without one `#` in
/// front, is read as exactly the number that the digits write.
pub proof fn lemma_color_of_rgb_literal(text: Seq<char>)
    requires
        is_rgb_literal(text),
    ensures
        color_value(text) == rgb_value(rgb_digits(text)),
        0 <= color_value(text) <= 0xffffff,
{
    let digits = rgb_digits(text);
    assert(hex_digit_value(digits[0]) is Some);
    assert(digits.first() != '#');
    assert(strip_hashes(digits) == digits);
    assert(strip_hashes(text) == digits);
    lemma_hex_value_six(digits);
}

/// A text that, once its leading `#` characters are gone, is empty or holds
/// a character that is no hexadecimal digit, a sign among them, is read as
/// the default colour.
pub proof fn lemma_color_of_non_hex(text: Seq<char>)
    requires
        !is_hex_number(strip_hashes(text)),
    ensures
        color_value(text) == DEFAULT_COLOR,
{
}

/// No text is read as a negative colour.
pub proof fn lemma_color_is_not_negative(text: Seq<char>)
    ensures
        0 <= color_value(text) <= i32::MAX,
{
}

fn hex_digit(c: char) -> (d: Option<i64>)
    ensures
        match d {
            Some(v) => hex_digit_value(c) == Some(v as nat) && 0 <= v < 16,
            None => hex_digit_value(c) is None,
        },
{
    let u: u32 = c as u32;
    if 0x30 <= u && u <= 0x39 {
        Some((u - 0x30) as i64)
    } else if 0x41 <= u && u <= 0x46 {
        Some((u - 0x41 + 10) as i64)
    } else if 0x61 <= u && u <= 0x66 {
        Some((u - 0x61 + 10) as i64)
    } else {
        None
    }
}

/// Reads a cover-image colour such as `#e4a15d` as an RGB integer. A text that
/// is no hexadecimal number, or whose number does not fit, gives the default.
#[verifier::loop_isolation(false)]
pub fn parse_color(text: &str) -> (color: i32)
    ensures
        color == color_value(text@),
        0 <= color,
{
    let chars = chars_of(text);
    let len = chars.len();
    let mut first: usize = 0;
    assert(chars@.subrange(0, len as int) == chars@);
    while first < len && chars[first] == '#'
        invariant
            first <= len == chars.len(),
            strip_hashes(chars@) == strip_hashes(chars@.subrange(first as int, len as int)),
        decreases len - first,
    {
        assert(chars@.subrange(first as int, len as int).drop_first() == chars@.subrange(
            first + 1,
            len as int,
        ));
        first += 1;
    }
    let ghost digits = chars@.subrange(first as int, len as int);
    assert(strip_hashes(chars@) == digits);
    if first == len {
        return DEFAULT_COLOR;
    }
    let mut acc: i64 = 0;
    let mut i: usize = first;
    assert(digits.take(0) == Seq::<char>::empty());
    while i < len
        invariant
            first <= i <= len == chars.len(),
            digits == chars@.subrange(first as int, len as int),
            all_hex_digits(digits.take(i - first)),
            acc == hex_value(digits.take(i - first)),
            0 <= acc <= 0x7fff_ffff,
        decreases len - i,
    {
        let ghost seen = digits.take(i - first);
        let ghost next = digits.take(i + 1 - first);
        assert(next.drop_last() == seen);
        assert(next.last() == chars@[i as int]);
        match hex_digit(chars[i]) {
            None => {
                assert(hex_digit_value(digits[i - first]) is None);
                return DEFAULT_COLOR;
            },
            Some(d) => {
                acc = acc * 16 + d;
                assert(acc == hex_value(next));
                assert(all_hex_digits(next)) by {
                    assert forall|j: int| 0 <= j < next.len() implies (#[trigger] hex_digit_value(
                        next[j],
                    )) is Some by {
                        if j < seen.len() {
                            assert(next[j] == seen[j]);
                        }
                    }
                }
                if acc > 0x7fff_ffff {
                    proof {
                        lemma_hex_value_prefix(digits, i + 1 - first);
                    }
                    return DEFAULT_COLOR;
                }
            },
        }
        i += 1;
    }
    assert(digits.take(len - first) == digits);
    acc as i32
}

} // verus!
