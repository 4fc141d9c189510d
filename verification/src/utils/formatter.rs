//! Inline markup of the chat surface, and title casing of upstream values.

use vstd::prelude::*;
use crate::text::{chars_of, replace_underscores, underscores_to_spaces};
use crate::trusted::titlecase_of;

verus! {

/// The longest row of opening brackets that a text may hold and still be
/// title-cased. The title-casing crate calls itself once for each bracket
/// that a word opens with, and at this depth stays within the two megabytes
/// of stack that a thread has by default.
pub const MAX_OPEN_BRACKETS: usize = 256;

/// The number of opening brackets that stand in a row at the end of `text`,
/// with nothing but underscores between and behind them.
pub open spec fn bracket_run_at_end(text: Seq<char>) -> nat
    decreases text.len(),
{
    if text.len() == 0 {
        0
    } else if text.last() == '(' {
        bracket_run_at_end(text.drop_last()) + 1
    } else if text.last() == '_' {
        bracket_run_at_end(text.drop_last())
    } else {
        0
    }
}

/// The most opening brackets that stand in a row anywhere in `text`, with
/// nothing but underscores between them.
pub open spec fn longest_bracket_run(text: Seq<char>) -> nat
    decreases text.len(),
{
    if text.len() == 0 {
        0
    } else if bracket_run_at_end(text) > longest_bracket_run(text.drop_last()) {
        bracket_run_at_end(text)
    } else {
        longest_bracket_run(text.drop_last())
    }
}

/// `text` in title case; `text` itself where more than `MAX_OPEN_BRACKETS`
/// opening brackets stand in a row in it.
pub open spec fn title_case_text(text: Seq<char>) -> Seq<char> {
    if longest_bracket_run(text) <= MAX_OPEN_BRACKETS {
        titlecase_of(text)
    } else {
        text
    }
}

/// `text` as inline code.
pub open spec fn code_text(text: Seq<char>) -> Seq<char> {
    seq!['`'] + text + seq!['`']
}

/// `text` in italics.
pub open spec fn italics_text(text: Seq<char>) -> Seq<char> {
    seq!['*'] + text + seq!['*']
}

/// `text` in bold.
pub open spec fn bold_text(text: Seq<char>) -> Seq<char> {
    seq!['*', '*'] + text + seq!['*', '*']
}

/// A link that shows `label` and leads to `url`.
pub open spec fn link_text(label: Seq<char>, url: Seq<char>) -> Seq<char> {
    seq!['['] + label + seq![']', '('] + url + seq![')']
}

/// Wraps `text` in backticks.
pub fn code(text: String) -> (out: String)
    ensures
        out@ == code_text(text@),
{
    let mut out = String::new();
    out.push('`');
    out.append(text.as_str());
    out.push('`');
    assert(out@ =~= code_text(text@));
    out
}

/// Wraps `text` in single asterisks.
pub fn italics(text: String) -> (out: String)
    ensures
        out@ == italics_text(text@),
{
    let mut out = String::new();
    out.push('*');
    out.append(text.as_str());
    out.push('*');
    assert(out@ =~= italics_text(text@));
    out
}

/// Wraps `text` in double asterisks.
pub fn bold(text: String) -> (out: String)
    ensures
        out@ == bold_text(text@),
{
    let mut out = String::new();
    out.push('*');
    out.push('*');
    out.append(text.as_str());
    out.push('*');
    out.push('*');
    assert(out@ =~= bold_text(text@));
    out
}

/// Builds the link markup `[label](url)`.
pub fn linker(label: String, url: String) -> (out: String)
    ensures
        out@ == link_text(label@, url@),
{
    let mut out = String::new();
    out.push('[');
    out.append(label.as_str());
    out.push(']');
    out.push('(');
    out.append(url.as_str());
    out.push(')');
    assert(out@ =~= link_text(label@, url@));
    out
}

/// Counts the most opening brackets that stand in a row in `text`, with
/// nothing but underscores between them.
pub fn bracket_run(text: &str) -> (n: usize)
    ensures
        n == longest_bracket_run(text@),
{
    let chars = chars_of(text);
    let mut run: usize = 0;
    let mut longest: usize = 0;
    let mut i: usize = 0;
    while i < chars.len()
        invariant
            i <= chars.len(),
            run <= i,
            longest <= i,
            run == bracket_run_at_end(chars@.take(i as int)),
            longest == longest_bracket_run(chars@.take(i as int)),
        decreases chars.len() - i,
    {
        assert(chars@.take(i + 1).drop_last() == chars@.take(i as int));
        let c = chars[i];
        if c == '(' {
            run += 1;
        } else if c != '_' {
            run = 0;
        }
        if run > longest {
            longest = run;
        }
        i += 1;
    }
    assert(chars@.take(chars.len() as int) == chars@);
    longest
}

/// Puts `text` in title case: `a tale of two cities` reads
/// `A Tale of Two Cities`.
///
/// A text in which more than `MAX_OPEN_BRACKETS` opening brackets stand in a
/// row, with nothing but underscores between them, comes back unchanged: the
/// title-casing crate would call itself once for each of them.
pub fn title_case(text: &str) -> (out: String)
    ensures
        out@ == title_case_text(text@),
{
    if bracket_run(text) <= MAX_OPEN_BRACKETS {
        titlecase::titlecase(text)
    } else {
        text.to_owned()
    }
}

/// Title-cases an upstream constant such as `NOT_YET_RELEASED` after turning
/// its underscores into spaces.
pub fn remove_underscores_and_titlecase(text: &str) -> (out: String)
    ensures
        out@ == title_case_text(underscores_to_spaces(text@)),
{
    let spaced = replace_underscores(text);
    title_case(spaced.as_str())
}

} // verus!
