use anilist_embed::utils::markdown::{convertible, fits, to_markdown, MAX_DEPTH, MAX_TABLE_DEPTH};

fn node(name: &str, parent: usize) -> (String, usize) {
    (name.to_string(), parent)
}

fn pick(state: &mut u64, n: usize) -> usize {
    *state ^= *state << 13;
    *state ^= *state >> 7;
    *state ^= *state << 17;
    (*state % (n as u64)) as usize
}

#[test]
fn markdown_of_inline_markup() {
    assert_eq!(to_markdown("<b>bold</b> and <i>slanted</i>"), "**bold** and *slanted*");
    assert_eq!(to_markdown("plain words"), "plain words");
    assert_eq!(to_markdown(""), "");
}

#[test]
fn markdown_of_a_link() {
    assert_eq!(
        to_markdown("<a href=\"https://anilist.co\">Anilist</a>"),
        "[Anilist](https://anilist.co)"
    );
}

#[test]
fn markdown_of_blocks() {
    assert_eq!(to_markdown("<p>one</p><p>two</p>"), "one\n\ntwo");
    assert_eq!(to_markdown("line<br>break"), "line  \nbreak");
    assert_eq!(to_markdown("<h3>Head</h3>"), "### Head ###");
    assert_eq!(to_markdown("a &amp; b &lt;c&gt;"), "a & b \\<c\\>");
}

#[test]
fn limits_are_as_documented() {
    assert_eq!(MAX_DEPTH, 512);
    assert_eq!(MAX_TABLE_DEPTH, 2);
}

#[test]
fn fits_asks_for_a_list_around_each_list_item() {
    let page = vec![node("", 0), node("html", 0), node("body", 1)];
    let with = |rest: Vec<(String, usize)>| {
        let mut all = page.clone();
        all.extend(rest);
        all
    };
    assert!(fits(&page));
    assert!(fits(&with(vec![node("ul", 2), node("li", 3), node("", 4)])));
    assert!(fits(&with(vec![node("ol", 2), node("b", 3), node("li", 4)])));
    assert!(fits(&with(vec![node("menu", 2), node("li", 3), node("ul", 4), node("li", 5)])));
    assert!(!fits(&with(vec![node("li", 2)])));
    assert!(!fits(&with(vec![node("b", 2), node("li", 3)])));
    assert!(!fits(&with(vec![node("ul", 2), node("li", 2)])));
    assert!(!fits(&with(vec![node("ul", 2), node("li", 3), node("li", 2)])));
    assert!(!fits(&vec![node("li", 0)]));
}

#[test]
fn fits_looks_for_the_list_inside_the_cell() {
    let cell = vec![
        node("", 0),
        node("ul", 0),
        node("li", 1),
        node("table", 2),
        node("tbody", 3),
        node("tr", 4),
        node("td", 5),
    ];
    let with = |rest: Vec<(String, usize)>| {
        let mut all = cell.clone();
        all.extend(rest);
        all
    };
    assert!(fits(&cell));
    assert!(!fits(&with(vec![node("li", 6)])));
    assert!(!fits(&with(vec![node("b", 6), node("li", 7)])));
    assert!(fits(&with(vec![node("ol", 6), node("li", 7)])));
    let head = vec![node("", 0), node("ul", 0), node("th", 1), node("li", 2)];
    assert!(!fits(&head));
}

#[test]
fn fits_bounds_depth_and_tables_in_tables() {
    let mut chain = vec![node("", 0)];
    for i in 0..512 {
        chain.push(node("div", i));
    }
    assert!(fits(&chain));
    chain.push(node("div", 512));
    assert!(!fits(&chain));
    let mut flat = vec![node("", 0)];
    for _ in 0..5000 {
        flat.push(node("table", 0));
    }
    assert!(fits(&flat));
    assert!(fits(&vec![node("", 0), node("table", 0), node("td", 1), node("table", 2)]));
    assert!(!fits(&vec![
        node("", 0),
        node("table", 0),
        node("td", 1),
        node("table", 2),
        node("table", 3),
    ]));
}

#[test]
fn fits_asks_that_parents_come_first() {
    assert!(fits(&Vec::new()));
    assert!(fits(&vec![node("", 0), node("p", 0)]));
    assert!(fits(&vec![node("", 7)]));
    assert!(!fits(&vec![node("", 0), node("p", 1)]));
    assert!(!fits(&vec![node("", 0), node("p", 2), node("p", 0)]));
}

#[test]
fn lists_are_converted() {
    assert_eq!(to_markdown("<ul><li>a</li><li>b</li></ul>"), "* a\n* b");
    assert_eq!(to_markdown("<ol><li>first</li><li>second</li></ol>"), "1. first\n2. second");
    assert_eq!(
        to_markdown("Includes:<ul><li><b>One</b></li><li><i>Two</i></li></ul>"),
        "Includes:\n\n* **One**\n* *Two*"
    );
}

#[test]
fn lists_with_attributes_links_and_breaks_are_converted() {
    assert_eq!(to_markdown("<ul><li class=x>a</li></ul>"), "* a");
    assert_eq!(to_markdown("<ul class=\"x\"><li>a</li></ul>"), "* a");
    assert_eq!(to_markdown("<ul><li>a <a href=x>b</a></li></ul>"), "* a [b](x)");
    assert_eq!(to_markdown("<ul><li><a href=x>b</a></li></ul>"), "* [b](x)");
    assert_eq!(to_markdown("<ul><li>a<br/>b</li></ul>"), "* a  \n  b");
}

#[test]
fn item_after_a_closed_inner_list_is_converted() {
    let html = "<ol><li>a<ul><li>b</li></ul></li><li>c</li></ol>";
    assert!(convertible(html));
    assert_eq!(to_markdown(html), "1. a\n   * b\n\n2. c");
}

#[test]
fn stray_list_item_comes_back_unchanged() {
    for html in [
        "<li>a</li>",
        "<br><b><li></li></b>",
        "<blockquote><b><li></li></b></blockquote>",
        "<blockquote><a href=x><li></li>\u{e9}</a></blockquote>",
        "<blockquote><blockquote><li></li></blockquote></blockquote>",
        "<ul><li>a</li></ul><li>b</li>",
        "<table><tr><td><li>a</li></td></tr></table>",
    ] {
        assert!(!convertible(html), "{}", html);
        assert_eq!(to_markdown(html), html);
    }
}

#[test]
fn names_are_read_as_the_parser_reads_them() {
    assert_eq!(to_markdown("<link rel=x>seen"), "seen");
    assert!(convertible("<listing>x</listing>"));
    assert!(convertible("&lt;li&gt; and <!-- <li> -->"));
    assert!(convertible("<a title='<li>'>x</a>"));
    assert!(!convertible("<LI>x"));
    assert!(!convertible("<li\n>x"));
}

#[test]
fn many_tags_side_by_side_are_converted() {
    let flat = "<i>x</i> ".repeat(5000);
    assert!(convertible(&flat));
    assert!(to_markdown(&flat).starts_with("*x* *x*"));
    let breaks = "A paragraph of the synopsis.<br><br>\n".repeat(400);
    let out = to_markdown(&breaks);
    assert!(!out.contains("<br>"));
    assert!(out.starts_with("A paragraph of the synopsis."));
    let tables = "<table><tr><td>a</td><td>b</td></tr></table>".repeat(20);
    assert!(convertible(&tables));
    assert!(to_markdown(&tables).contains('|'));
}

#[test]
fn deep_document_comes_back_unchanged() {
    let deep = format!("{}x", "<div>".repeat(511));
    assert!(!convertible(&deep));
    assert_eq!(to_markdown(&deep), deep);
    let deeper = format!("{}x{}", "<b>".repeat(5000), "</b>".repeat(5000));
    assert_eq!(to_markdown(&deeper), deeper);
}

#[test]
fn deepest_admitted_document_is_converted() {
    for tag in [
        "<div>", "<b>", "<i>", "<s>", "<blockquote>", "<pre>", "<code>", "<a href=x>", "<h1>",
        "<sup>", "<span>", "<ul>", "<details>", "<q>",
    ] {
        let html = format!("{}x", tag.repeat(509));
        assert!(convertible(&html), "{}", tag);
        let out = to_markdown(&html);
        assert_ne!(out, html, "{}", tag);
    }
    let items = format!("{}x", "<ul><li>".repeat(254));
    assert!(convertible(&items));
    assert!(to_markdown(&items).contains("* "));
}

#[test]
fn a_table_in_a_table_is_converted_and_no_more() {
    let one = "<table><tr><td>a</td><td>b</td></tr></table>";
    assert_eq!(to_markdown(one), "| a | b |\n|---|---|");
    let two = "<table><tr><td><table><tr><td>a</td></tr></table></td></tr></table>";
    assert!(convertible(two));
    assert!(to_markdown(two).contains('|'));
    let three = "<table><tr><td><table><tr><td><table><tr><td>a</td></tr></table></td></tr></table></td></tr></table>";
    assert!(!convertible(three));
    assert_eq!(to_markdown(three), three);
    let wide = format!(
        "<table>{}<tr><td><table>{}</table></td></tr></table>",
        "<tr><td>a</td></tr>".repeat(200),
        "<tr><td>b</td></tr>".repeat(200)
    );
    assert!(convertible(&wide));
    assert!(to_markdown(&wide).contains('|'));
}

#[test]
fn list_in_a_cell_is_converted() {
    let html = "<table><tr><td><ul><li>a</li></ul></td></tr></table>";
    assert!(convertible(html));
    assert_eq!(to_markdown(html), "|* a|\n|---|");
    let stray = "<ul><li><table><tr><td><li>x</li></td></tr></table></li></ul>";
    assert_eq!(to_markdown(stray), stray);
}

#[test]
fn tag_soup_is_converted_or_comes_back() {
    let parts = [
        "<b>", "</b>", "<i>", "</i>", "<s>", "<u>", "<em>", "</em>", "<strong>", "<p>", "</p>",
        "<div>", "</div>", "<br>", "<br/>", "<hr>", "<blockquote>", "</blockquote>", "<q>",
        "<a href=\"x y\">", "<a href=x>", "<a name=n>", "</a>", "<img src=x>",
        "<img src='a b' alt=t title=q>", "<img width=1>", "<h1>", "</h1>", "<h3>", "<pre>",
        "</pre>", "<code>", "</code>", "<code class=\"language-rs\">", "<ul>", "</ul>", "<ol>",
        "</ol>", "<menu>", "<li>", "<li>", "<li>", "<li class=x>", "</li>", "<LI>", "<table>",
        "</table>", "<tr>", "<td>", "</td>", "<th align=center>", "<tbody>", "</tr>",
        "<iframe src=\"https://www.youtube.com/embed/abc\">", "</iframe>", "<sub>", "</sub>",
        "<sup>", "<span>", "</span>", "<details>", "<summary>", "<select>", "<option>",
        "</select>", "<button>", "</button>", "<svg>", "</svg>", "<template>", "</template>",
        "<script>", "</script>", "<textarea>", "</textarea>", "<!-- c -->", "<!-- <ul> -->",
        "<body>", "</body>", "text", " ", "\n", "\n\n", "\u{e9}", "\u{3000}", "\u{a0}", "*", "_",
        "#", ">", "<", "&amp;", "&", "-", "+", "=", "\\", "~", "`", "|", "1.", "\t", "\r\n",
        "<dl>", "<dt>", "<dd>", "<form>", "<object>", "<math>", "<frameset>", "<ul class='a>b'>",
    ];
    let mut state: u64 = 0x0123456789abcdef;
    let mut converted = 0;
    let mut with_items = 0;
    for round in 0..12000 {
        let n = 1 + pick(&mut state, if round % 2 == 0 { 12 } else { 40 });
        let mut html = String::new();
        for _ in 0..n {
            html.push_str(parts[pick(&mut state, parts.len())]);
        }
        let out = to_markdown(&html);
        if convertible(&html) {
            converted += 1;
            if html.to_lowercase().contains("<li") {
                with_items += 1;
            }
        } else {
            assert_eq!(out, html);
        }
    }
    assert!(converted > 6000);
    assert!(with_items > 300);
}
