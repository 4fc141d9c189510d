//! Descriptions: HTML turned into Markdown.
//!
//! The conversion is the work of the crate `html2md`, which goes wrong on
//! three kinds of document. It walks the parsed tree by calling itself for
//! every level, so a very deep tree exhausts the stack. It renders a table
//! inside a table once more for every table around it, and pads every cell
//! to the widest, so tables inside tables make the text grow out of all
//! proportion. And it loses its place in the text at a list item with no list
//! around it. Whether a document is of these kinds is read off its parsed
//! tree; one that is, is shown as it came.

use vstd::prelude::*;
use crate::text::same_text;
use crate::trusted::{document_outline, markdown_of, outline_of};

verus! {

/// The deepest a node may stand in the tree of a document that is converted,
/// the document itself standing at depth 0. At this depth the converter
/// stays within the two megabytes of stack that a thread has by default.
pub const MAX_DEPTH: usize = 512;

/// The most tables that may stand in one another in a document that is
/// converted: a table in a table, no more.
pub const MAX_TABLE_DEPTH: usize = 2;

/// The name of node `i`: the tag's name in lower case for an element, empty
/// for any other node.
pub open spec fn name_of(outline: Seq<(Seq<char>, usize)>, i: int) -> Seq<char> {
    outline[i].0
}

/// The index of the node that node `i` stands directly under.
pub open spec fn parent_of(outline: Seq<(Seq<char>, usize)>, i: int) -> int {
    outline[i].1 as int
}

/// Whether node `i` has a node above it that comes before it: every node
/// of a tree but the first.
pub open spec fn has_parent(outline: Seq<(Seq<char>, usize)>, i: int) -> bool {
    0 < i < outline.len() && parent_of(outline, i) < i
}

/// How many nodes stand above node `i`.
pub open spec fn depth_of(outline: Seq<(Seq<char>, usize)>, i: int) -> nat
    decreases i,
{
    if has_parent(outline, i) {
        depth_of(outline, parent_of(outline, i)) + 1
    } else {
        0
    }
}

/// How many tables stand around node `i`, itself counted if it is one.
pub open spec fn tables_around(outline: Seq<(Seq<char>, usize)>, i: int) -> nat
    decreases i,
{
    let own: nat = if name_of(outline, i) == "table"@ {
        1
    } else {
        0
    };
    if has_parent(outline, i) {
        tables_around(outline, parent_of(outline, i)) + own
    } else {
        own
    }
}

/// Whether `name` names a list.
pub open spec fn is_list_name(name: Seq<char>) -> bool {
    name == "ul"@ || name == "ol"@ || name == "menu"@
}

/// Whether `name` names a cell of a table. The converter renders each cell
/// as a text of its own.
pub open spec fn is_cell_name(name: Seq<char>) -> bool {
    name == "td"@ || name == "th"@
}

/// Whether what stands directly under node `i` has a list around it: node
/// `i` or a node above it is a list, and no cell of a table stands between.
pub open spec fn in_list(outline: Seq<(Seq<char>, usize)>, i: int) -> bool
    decreases i,
{
    if is_list_name(name_of(outline, i)) {
        true
    } else if is_cell_name(name_of(outline, i)) {
        false
    } else if has_parent(outline, i) {
        in_list(outline, parent_of(outline, i))
    } else {
        false
    }
}

/// Whether node `i` is one that the converter can take: it stands before
/// what stands under it, not too deep, in not too many tables, and if it is
/// a list item, in a list.
pub open spec fn node_fits(outline: Seq<(Seq<char>, usize)>, i: int) -> bool {
    &&& i > 0 ==> parent_of(outline, i) < i
    &&& depth_of(outline, i) <= MAX_DEPTH
    &&& tables_around(outline, i) <= MAX_TABLE_DEPTH
    &&& name_of(outline, i) == "li"@ ==> i > 0 && in_list(outline, parent_of(outline, i))
}

/// Whether every node of the tree is one that the converter can take.
pub open spec fn outline_fits(outline: Seq<(Seq<char>, usize)>) -> bool {
    forall|i: int| 0 <= i < outline.len() ==> node_fits(outline, i)
}

/// Whether `html` may be converted: its parsed tree is at most `MAX_DEPTH`
/// deep, no more than `MAX_TABLE_DEPTH` tables stand in one another, and
/// every list item has a list around it.
pub open spec fn is_convertible(html: Seq<char>) -> bool {
    outline_fits(outline_of(html))
}

/// The Markdown for `html`; `html` itself where it is not convertible.
pub open spec fn markdown_text(html: Seq<char>) -> Seq<char> {
    if is_convertible(html) {
        markdown_of(html)
    } else {
        html
    }
}

/// Tells whether every node of the tree `outline` is one that the converter
/// can take.
pub fn fits(outline: &Vec<(String, usize)>) -> (b: bool)
    ensures
        b == outline_fits(outline.deep_view()),
{
    let ghost tree = outline.deep_view();
    let mut depths: Vec<usize> = Vec::new();
    let mut tables: Vec<usize> = Vec::new();
    let mut listed: Vec<bool> = Vec::new();
    let mut i: usize = 0;
    while i < outline.len()
        invariant
            i <= outline.len(),
            tree == outline.deep_view(),
            depths.len() == i,
            tables.len() == i,
            listed.len() == i,
            forall|j: int| 0 <= j < i ==> node_fits(tree, j),
            forall|j: int| 0 <= j < i ==> depths@[j] == depth_of(tree, j),
            forall|j: int| 0 <= j < i ==> tables@[j] == tables_around(tree, j),
            forall|j: int| 0 <= j < i ==> listed@[j] == in_list(tree, j),
        decreases outline.len() - i,
    {
        let name = outline[i].0.as_str();
        let parent = outline[i].1;
        assert(tree[i as int] == (outline@[i as int].0@, outline@[i as int].1));
        let is_table = same_text(name, "table");
        let is_list = same_text(name, "ul") || same_text(name, "ol") || same_text(name, "menu");
        let is_cell = same_text(name, "td") || same_text(name, "th");
        let is_item = same_text(name, "li");
        let own: usize = if is_table {
            1
        } else {
            0
        };
        if i == 0 {
            if is_item {
                assert(!node_fits(tree, 0));
                return false;
            }
            assert(!has_parent(tree, 0));
            depths.push(0);
            tables.push(own);
            listed.push(is_list);
        } else {
            if parent >= i {
                assert(!node_fits(tree, i as int));
                return false;
            }
            proof {
                assert(node_fits(tree, parent as int));
                assert(has_parent(tree, i as int));
                assert(parent_of(tree, i as int) == parent);
                assert(depth_of(tree, i as int) == depths@[parent as int] + 1);
                assert(tables_around(tree, i as int) == tables@[parent as int] + own);
                let above = listed@[parent as int];
                assert(above == in_list(tree, parent as int));
                assert(name_of(tree, i as int) == name@);
                assert(is_list == is_list_name(name@));
                assert(is_cell == is_cell_name(name@));
                assert(in_list(tree, i as int) == (is_list || (!is_cell && above)));
            }
            if depths[parent] >= MAX_DEPTH || tables[parent] + own > MAX_TABLE_DEPTH || (is_item
                && !listed[parent]) {
                assert(!node_fits(tree, i as int));
                return false;
            }
            depths.push(depths[parent] + 1);
            tables.push(tables[parent] + own);
            listed.push(is_list || (!is_cell && listed[parent]));
        }
        assert(node_fits(tree, i as int));
        i += 1;
    }
    true
}

/// Tells whether `html` may be converted.
pub fn convertible(html: &str) -> (b: bool)
    ensures
        b == is_convertible(html@),
{
    let outline = document_outline(html);
    fits(&outline)
}

/// Turns an HTML description into Markdown: `<b>bold</b>` reads `**bold**`.
///
/// Three kinds of document come back unchanged, because the converter cannot
/// take them: one whose parsed tree is more than `MAX_DEPTH` levels deep; one
/// in which more than `MAX_TABLE_DEPTH` tables stand in one another; and one
/// with a list item that has no list around it, or none inside the cell of
/// the table it stands in. The bounds are on how deep tags stand in one
/// another in the parsed tree, not on how many there are.
pub fn to_markdown(html: &str) -> (out: String)
    ensures
        out@ == markdown_text(html@),
{
    if convertible(html) {
        html2md::parse_html(html)
    } else {
        html.to_owned()
    }
}

} // verus!
