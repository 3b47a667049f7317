use noot::windows::editor_window::{editor_title, preview_tokens, MarkdownKind};
use noot::runtime::windows::editor::buffer::{
    link_target, preview_layout, Buffer as PreviewBuffer, ElWrapper as PreviewElement,
};
use noot::storage::workspace::buffer::{DomKind, HtmlNode};
use noot::storage::workspace::layout::LayoutSlot;
use noot::windows::editor_window::editor_panel::{
    panel_content, panel_mode_and_title, EditorPanelState, PanelContent, PanelMode,
};

#[test]
fn preview_tokens_gather_text() {
    let tokens = preview_tokens("# Title\n\nHello *world*\n").unwrap();
    assert_eq!(tokens.len(), 2);
    assert_eq!(tokens[0].kind, MarkdownKind::Heading(1));
    assert_eq!(tokens[0].content.as_deref(), Some("Title"));
    assert_eq!(tokens[1].kind, MarkdownKind::Paragraph);
    assert_eq!(tokens[1].content.as_deref(), Some("Hello world"));
}

#[test]
fn preview_tokens_empty_heading_has_no_content() {
    let tokens = preview_tokens("## \n").unwrap();
    assert_eq!(tokens.len(), 1);
    assert_eq!(tokens[0].kind, MarkdownKind::Heading(2));
    assert!(tokens[0].content.is_none());
    assert!(preview_tokens("").unwrap().is_empty());
}

#[test]
fn preview_tokens_refuse_text_before_any_block() {
    assert!(preview_tokens("- item\n").is_none());
}

#[test]
fn editor_title_names_file() {
    assert_eq!(editor_title("Noot", "0.1.0", "README.md"), "Noot - 0.1.0 - Editing README.md");
}

#[test]
fn panel_mode_for_internal_pages() {
    let (mode, title) = panel_mode_and_title("noot://internal/landing", "landing");
    assert_eq!(mode, PanelMode::PreviewOnly);
    assert_eq!(title, "INTERNAL PAGE");
    let (mode, title) = panel_mode_and_title("/ws/notes.md", "notes.md");
    assert_eq!(mode, PanelMode::Combined);
    assert_eq!(title, "notes.md");
    assert_eq!(panel_mode_and_title("noot:", "x").0, PanelMode::PreviewOnly);
    assert_eq!(panel_mode_and_title("nootx:/a", "a").0, PanelMode::Combined);
}

#[test]
fn panel_content_picks_first_shown_node() {
    let nodes = vec![HtmlNode::Comment("c".to_string()), HtmlNode::Text("t".to_string())];
    assert_eq!(panel_content(DomKind::DocumentFragment, &nodes), PanelContent::Node(1));
    assert_eq!(
        panel_content(DomKind::DocumentFragment, &vec![HtmlNode::Comment("c".to_string())]),
        PanelContent::Blank
    );
    assert_eq!(panel_content(DomKind::Document, &nodes), PanelContent::DocumentFound);
    assert_eq!(panel_content(DomKind::Empty, &vec![]), PanelContent::NothingToShow);
}

#[test]
fn panel_state_from_markdown() {
    let p = EditorPanelState::new("/ws/a.md", "a.md", "# Title\n".to_string()).unwrap();
    assert_eq!(p.mode, PanelMode::Combined);
    assert_eq!(p.tab_title, "a.md");
    assert_eq!(p.text, "# Title\n");
    assert!(matches!(p.content, PanelContent::Node(_) | PanelContent::DocumentFound));
}

fn preview_el(name: &str, children: Vec<PreviewElement>) -> PreviewElement {
    PreviewElement {
        id: None,
        name: name.to_string(),
        attributes: vec![],
        classes: vec![],
        children,
        display_text: String::new(),
    }
}

fn preview_text(t: &str) -> PreviewElement {
    PreviewElement { display_text: t.to_string(), ..preview_el("TEXT", vec![]) }
}

#[test]
fn preview_layout_groups_spans() {
    let els = vec![
        preview_text("a"),
        preview_el("code", vec![preview_text("x")]),
        preview_el("h1", vec![preview_text("T")]),
        preview_el("a", vec![preview_text("link")]),
    ];
    let slots = preview_layout(&els);
    let shown: Vec<String> = slots
        .iter()
        .map(|s| match s {
            LayoutSlot::Spans(v) => format!("S{:?}", v),
            LayoutSlot::Block(i) => format!("B{}", i),
            other => format!("{:?}", other),
        })
        .collect();
    assert_eq!(shown, vec!["S[0, 1]", "B2", "S[3]"]);
}

#[test]
fn preview_links_and_buffers() {
    let mut link = preview_el("a", vec![preview_text("x")]);
    assert_eq!(link_target(&link), None);
    link.attributes.push(("href".to_string(), Some("https://noot.app".to_string())));
    assert_eq!(link_target(&link), Some("https://noot.app".to_string()));
    let b = PreviewBuffer::from_md("n".to_string(), "file:///x.md", "~~gone~~ *kept*").unwrap();
    assert_eq!(b.name, "n");
    assert_eq!(b.doc.len(), 1);
    assert_eq!(b.doc[0].name, "p");
    assert!(PreviewBuffer::new("n".to_string(), "::", "<p>x</p>").is_none());
}
