//! What the library takes on trust: the contracts of the functions of std and
//! of other crates that it calls. Verus believes each of them without proof,
//! and every proof in the library rests on them.

use vstd::prelude::*;
use html2md::{NodeData, RcDom};
use html5ever::driver::ParseOpts;
use html5ever::parse_document;
use html5ever::tendril::TendrilSink;
use crate::utils::date::{date_text, DATE_PATTERN};
use crate::utils::formatter::{longest_bracket_run, MAX_OPEN_BRACKETS};
use crate::utils::markdown::is_convertible;

verus! {

/// `String::push`, which the standard library documents as appending the
/// character `c` to the end of the string.
pub assume_specification[ String::push ](s: &mut String, c: char)
    ensures
        final(s)@ == old(s)@.push(c),
;

/// The text that `titlecase::titlecase` makes of `input`: title case after
/// John Gruber, in which small words such as `of` stay in lower case, words
/// with capitals inside are left alone, and a text without any lower-case
/// letter is lower-cased first.
pub uninterp spec fn titlecase_of(input: Seq<char>) -> Seq<char>;

/// `titlecase::titlecase` of the crate `titlecase`. It reads nothing but
/// `input` and its own fixed word list and patterns, so its result is a
/// function of the characters handed in; the contract claims no more of the
/// result. For a word that opens with a bracket the function calls itself on
/// the rest of the word, of which it skips the underscores in front; it
/// splits a word at slashes and at hyphens only once. So it goes no deeper
/// than opening brackets stand in a row, and three levels more. The contract
/// admits only texts for which that is shallow.
pub assume_specification[ titlecase::titlecase ](input: &str) -> (out: String)
    requires
        longest_bracket_run(input@) <= MAX_OPEN_BRACKETS,
    ensures
        out@ == titlecase_of(input@),
;

/// The Markdown that `html2md::parse_html` makes of the HTML document `html`.
pub uninterp spec fn markdown_of(html: Seq<char>) -> Seq<char>;

/// The tree that `html5ever` parses the document `html` into, node by node:
/// the name of each node and the index of the node it stands under, as
/// `document_outline` hands them out.
pub uninterp spec fn outline_of(html: Seq<char>) -> Seq<(Seq<char>, usize)>;

/// Parses `html` with `html5ever::parse_document`, into the tree of the
/// crate `markup5ever_rcdom` and with the default options, as `html2md`
/// does, and hands the tree out as plain values. Each node has one entry:
/// the local name of its tag if it is an element, else the empty text, and
/// the index of the entry of the node whose child it is. The document's own
/// entry comes first, with 0 for its parent, and every other node comes
/// after the node it stands under. The parser reads nothing but `html`, so
/// the tree is a function of the characters handed in; the contract claims
/// no more.
#[verifier::external_body]
pub(crate) fn document_outline(html: &str) -> (outline: Vec<(String, usize)>)
    ensures
        outline.deep_view() == outline_of(html@),
{
    let sink = parse_document(RcDom::default(), ParseOpts::default()).from_utf8();
    let dom = sink.read_from(&mut html.as_bytes()).unwrap();
    let mut outline = Vec::new();
    let mut pending = vec![(dom.document.clone(), 0)];
    while let Some((node, parent)) = pending.pop() {
        for child in node.children.borrow().iter() {
            pending.push((child.clone(), outline.len()));
        }
        match node.data {
            NodeData::Element { ref name, .. } => outline.push((name.local.to_string(), parent)),
            _ => outline.push((String::new(), parent)),
        }
    }
    outline
}

/// `html2md::parse_html` of the crate `html2md`. It parses `html` as
/// `document_outline` does and walks the tree with its built-in tag handlers
/// only, so its result is a function of the characters handed in; the
/// contract claims no more of the result. The contract admits only documents
/// whose tree the walk can take, for three reasons.
///
/// The walk calls itself for every level of the tree, and so do the search
/// for the rows of a table and the rendering of a cell.
///
/// The table handler renders every cell of every row below it, the rows of
/// tables inside it among them, pads each to the widest of its column, and
/// renders a table inside a cell anew each time it renders that cell.
///
/// The handler of list items looks for a list among the names of the nodes
/// above the item, as far up as the walk began: at the document, or at the
/// cell of a table, which is rendered as a text of its own. Where it finds
/// none it rewrites the text from its very start, after which the handlers
/// around it index the text at places that are gone.
pub assume_specification[ html2md::parse_html ](html: &str) -> (out: String)
    requires
        is_convertible(html@),
    ensures
        out@ == markdown_of(html@),
;

/// The lower-case form that `str::to_lowercase` gives `text`, after the
/// Unicode case mappings.
pub uninterp spec fn lowercase_of(text: Seq<char>) -> Seq<char>;

/// `str::to_lowercase`, which the standard library documents as returning
/// the lower-case equivalent of the string slice as a new string. The
/// contract claims only that the result is a function of the characters
/// handed in.
pub assume_specification[ str::to_lowercase ](text: &str) -> (out: String)
    ensures
        out@ == lowercase_of(text@),
;

/// Renders a date of the calendar with the crate `chrono`:
/// `NaiveDate::from_ymd_opt` makes the date, `NaiveDate::format` renders it
/// with `pattern`. For the one pattern admitted the contract claims that the
/// text is the month's English three-letter name for `%b`, the day of the
/// month without padding for `%-e` and, for `%Y`, the year in four digits
/// padded with zeros, or behind a plus sign from 10000 on, with one space
/// between the three. `from_ymd_opt` gives no date, and the wrapper no text,
/// where the calendar has no such day or the year is beyond what chrono
/// holds; the contract does not say when.
#[verifier::external_body]
pub(crate) fn calendar_date_text(year: i32, month: u32, day: u32, pattern: &str) -> (text: Option<
    String,
>)
    requires
        0 <= year,
        pattern@ == DATE_PATTERN@,
    ensures
        text matches Some(shown) ==> shown@ == date_text(year as nat, month as nat, day as nat),
{
    match chrono::NaiveDate::from_ymd_opt(year, month, day) {
        Some(date) => Some(date.format(pattern).to_string()),
        None => None,
    }
}

} // verus!
