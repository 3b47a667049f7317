use noot::storage::workspace::buffer::{
    build_document, can_build, find_image_sources, greedy_text, lookup_attribute,
    markdown_to_html, unescape_html_text, ElWrapper, HtmlNode,
};
use noot::utils::cryptography::hashing::hash_str;
use noot::storage::workspace::buffer::Buffer;
use noot::storage::workspace::layout::LayoutSlot;
use noot::storage::workspace::layout::{layout_plan, render_kind, RenderKind};
use noot::storage::workspace::buffer::get_a11_font;
use noot::storage::workspace::layout::{cell_alignment, layout_plan_aligned, Alignment};

fn text(t: &str) -> HtmlNode {
    HtmlNode::Text(t.to_string())
}

fn element(name: &str, attributes: Vec<(&str, Option<&str>)>, children: Vec<HtmlNode>) -> HtmlNode {
    HtmlNode::Element {
        name: name.to_string(),
        id: None,
        classes: vec![],
        attributes: attributes
            .into_iter()
            .map(|(k, v)| (k.to_string(), v.map(|s| s.to_string())))
            .collect(),
        children,
    }
}

fn el(name: &str, children: Vec<ElWrapper>) -> ElWrapper {
    ElWrapper { name: name.to_string(), attributes: vec![], children, display_text: String::new() }
}

fn t(s: &str) -> ElWrapper {
    ElWrapper { name: "TEXT".to_string(), attributes: vec![], children: vec![], display_text: s.to_string() }
}

#[test]
fn unescape_decodes_entities_and_tabs() {
    assert_eq!(unescape_html_text("a &amp; b\tc &lt;d&gt;"), "a & b c <d>");
}

#[test]
fn greedy_text_joins_with_spaces() {
    let els = vec![t("one"), t("two &amp; three"), el("p", vec![])];
    assert_eq!(greedy_text(&els), "one two & three ");
    assert_eq!(greedy_text(&[]), "");
}

#[test]
fn view_text_of_headings_and_sections() {
    let h1 = el("h1", vec![t("Title")]);
    assert_eq!(h1.view_text(None), "Title");
    assert_eq!(h1.view_text(Some("section".to_string())), "section");
    let h2 = el("h2", vec![t("Sub")]);
    assert_eq!(h2.view_text(Some("ignored".to_string())), "Sub");
    assert_eq!(el("hr", vec![]).view_text(None), "");
}

#[test]
fn view_text_of_paragraphs_tables_and_images() {
    let p = el("p", vec![t("Hello"), el("em", vec![t("big")]), t("world")]);
    assert_eq!(p.view_text(None), "Hello big world");
    assert_eq!(
        el("table", vec![t("x")]).view_text(None),
        "Table containing content which is not supported for screen readers"
    );
    assert_eq!(el("img", vec![]).view_text(None), "Image not found");
    let link = el("a", vec![el("strong", vec![t("go")])]);
    assert_eq!(link.view_text(None), "go");
}

#[test]
fn build_document_drops_comments_and_rewrites_images() {
    let nodes = vec![
        HtmlNode::Comment("note".to_string()),
        element("p", vec![], vec![text("Hi"), element("img", vec![("src", Some("cat.png"))], vec![])]),
    ];
    assert!(can_build(&nodes[1], "ws"));
    let doc = build_document(nodes, "ws");
    assert_eq!(doc.len(), 1);
    assert_eq!(doc[0].name, "p");
    assert_eq!(doc[0].children[0].name, "TEXT");
    assert_eq!(doc[0].children[0].display_text, "Hi");
    let img = &doc[0].children[1];
    let expected = format!("noot://ws/assets/{}", hash_str("cat.png"));
    assert_eq!(lookup_attribute(&img.attributes, "cached-src"), Some(Some(expected)));
    assert_eq!(lookup_attribute(&img.attributes, "src"), Some(Some("cat.png".to_string())));
}

#[test]
fn image_without_source_cannot_be_built() {
    let node = element("img", vec![("alt", Some("x"))], vec![]);
    assert!(!can_build(&node, "ws"));
    assert!(ElWrapper::try_new(node, "ws").is_none());
    assert_eq!(ElWrapper::new(text("plain"), "ws").name, "TEXT");
    assert_eq!(ElWrapper::new(HtmlNode::Comment("c".to_string()), "ws").name, "INVALID");
}

#[test]
fn image_sources_in_document_order() {
    let img = |src: &str| ElWrapper {
        name: "img".to_string(),
        attributes: vec![("src".to_string(), Some(src.to_string()))],
        children: vec![],
        display_text: String::new(),
    };
    let doc = vec![el("p", vec![img("a.png"), el("div", vec![img("b.png")])]), img("c.png")];
    assert_eq!(find_image_sources(&doc), vec!["a.png", "b.png", "c.png"]);
}

#[test]
fn lookup_attribute_finds_first() {
    let attrs = vec![
        ("href".to_string(), None),
        ("href".to_string(), Some("x".to_string())),
    ];
    assert_eq!(lookup_attribute(&attrs, "href"), Some(None));
    assert_eq!(lookup_attribute(&attrs, "src"), None);
}

#[test]
fn markdown_renders_gfm_tables() {
    let html = markdown_to_html("# Title\n\n| a | b |\n|---|---|\n| 1 | 2 |\n");
    assert!(html.starts_with("<h1>Title</h1>"));
    assert!(html.contains("<table>"));
}

fn slot_text(slots: &[noot::storage::workspace::layout::LayoutSlot]) -> Vec<String> {
    slots
        .iter()
        .map(|s| match s {
            LayoutSlot::Spans(v) => format!("S{:?}", v),
            LayoutSlot::InlineRow(v) => format!("R{:?}", v),
            LayoutSlot::Block(i) => format!("B{}", i),
            LayoutSlot::SectionHeading(i, t) => format!("H{}:{}", i, t),
        })
        .collect()
}

#[test]
fn layout_reheads_previous_section() {
    let els = vec![
        el("h1", vec![t("A")]),
        t("x"),
        el("p", vec![t("y")]),
        el("h1", vec![t("B")]),
    ];
    let (slots, texts) = layout_plan(&els);
    assert_eq!(
        slot_text(&slots),
        vec!["S[]", "H3: A x y", "B0", "S[1]", "R[]", "B2", "S[]", "R[]", "B3", "S[]", "R[]"]
    );
    assert_eq!(texts, vec!["A", "x", "y", "B"]);
}

#[test]
fn layout_keeps_inline_links_in_a_row() {
    let link = el("a", vec![el("strong", vec![t("go")])]);
    assert_eq!(render_kind(&link), RenderKind::Inline);
    assert_eq!(render_kind(&el("a", vec![t("go")])), RenderKind::Span);
    assert_eq!(render_kind(&el("code", vec![])), RenderKind::Span);
    assert_eq!(render_kind(&el("table", vec![])), RenderKind::Block);
    let els = vec![t("a"), link, t("b"), el("hr", vec![])];
    let (slots, _) = layout_plan(&els);
    assert_eq!(slot_text(&slots), vec!["S[0]", "S[2]", "R[1]", "B3", "S[]", "R[]"]);
}

#[test]
fn accessible_font_choice() {
    assert_eq!(get_a11_font(true, "OpenDyslexic".to_string(), "Roboto".to_string()), "OpenDyslexic");
    assert_eq!(get_a11_font(false, "OpenDyslexic".to_string(), "Roboto".to_string()), "Roboto");
}

#[test]
fn aligned_cells_do_not_track_sections() {
    assert_eq!(cell_alignment("text-align: center"), Alignment::Center);
    assert_eq!(cell_alignment("text-align: right"), Alignment::Right);
    assert_eq!(cell_alignment("text-align:right"), Alignment::Left);
    let els = vec![el("h1", vec![t("A")]), el("h1", vec![t("B")])];
    let (slots, texts) = layout_plan_aligned(&els);
    assert_eq!(slot_text(&slots), vec!["S[]", "R[]", "B0", "S[]", "R[]", "B1", "S[]", "R[]"]);
    assert_eq!(texts, vec!["A", "B"]);
}

#[test]
fn buffer_from_markdown() {
    let b = Buffer::from_md(
        "a.md".to_string(),
        "ws",
        "file:///ws/a.md",
        "# Hi\n\nText ![cat](cat.png)\n",
    )
    .unwrap();
    assert_eq!(b.id.len(), 5);
    assert_eq!(b.name, "a.md");
    assert_eq!(b.url, "file:///ws/a.md");
    assert!(b.tts_segments.is_empty());
    let heading = b.doc.iter().find(|e| e.name == "h1").unwrap();
    assert_eq!(heading.view_text(None), "Hi");
    assert_eq!(find_image_sources(&b.doc), vec!["cat.png"]);
}

#[test]
fn buffer_refuses_bad_url_and_sourceless_images() {
    assert!(Buffer::new("x".to_string(), "ws", "not a url", "<p>hi</p>").is_none());
    assert!(Buffer::new("x".to_string(), "ws", "file:///x", "<img alt=\"a\">").is_none());
    let ok = Buffer::new("x".to_string(), "ws", "file:///x", "<!-- c --><p>hi</p>").unwrap();
    assert_eq!(ok.doc.len(), 1);
    assert_eq!(ok.doc[0].name, "p");
}
