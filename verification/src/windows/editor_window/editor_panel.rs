//! The editor panel of a file: what it shows and how its preview is
//! prepared.

use vstd::prelude::*;
use crate::storage::workspace::buffer::{
    html_parse_outcome, markdown_html, parse_html, render_markdown, DomKind, HtmlNode,
};
use crate::utils::text::{chars_of, has_prefix, starts_with, text_eq};

verus! {

/// What an editor panel shows.
#[derive(Debug, Clone, Copy, PartialEq, Eq, Structural)]
pub enum PanelMode {
    EditorOnly,
    Combined,
    PreviewOnly,
}

/// The Markdown extensions of the panel's preview, as pulldown-cmark option
/// bits: tables (1), footnotes (2), strikethrough (3), task lists (4), smart
/// punctuation (5), heading attributes (6), YAML (7) and `+++` (8)
/// metadata blocks, math (10), GFM (11), definition lists (12), superscript
/// (13), subscript (14) and wiki links (15).
pub const PANEL_MARKDOWN_OPTIONS: u32 = 65022;

/// A path inside the application's own pages: its first component is
/// `noot:`.
pub open spec fn internal_page(path: Seq<char>) -> bool {
    path == "noot:"@ || starts_with(path, "noot:/"@)
}

/// The mode and tab title of a panel for a file: an internal page is shown
/// as a preview only, titled `INTERNAL PAGE`; any other file is edited
/// beside its preview, titled with its file name.
pub fn panel_mode_and_title(path: &str, file_name: &str) -> (r: (PanelMode, String))
    ensures
        internal_page(path@) ==> r.0 == PanelMode::PreviewOnly && r.1@ == "INTERNAL PAGE"@,
        !internal_page(path@) ==> r.0 == PanelMode::Combined && r.1@ == file_name@,
{
    if text_eq(path, "noot:") || has_prefix(&chars_of(path), &chars_of("noot:/")) {
        (PanelMode::PreviewOnly, String::from_str("INTERNAL PAGE"))
    } else {
        (PanelMode::Combined, String::from_str(file_name))
    }
}

/// What the panel's preview shows.
#[derive(Debug, Clone, Copy, PartialEq, Eq, Structural)]
pub enum PanelContent {
    /// The notice that a whole document was found.
    DocumentFound,
    /// The top-level node with this index.
    Node(usize),
    /// The notice that there is nothing to show.
    NothingToShow,
    /// Nothing at all: the fragment holds only comments.
    Blank,
}

/// Decides what the preview shows for a parsed text: a notice for a whole
/// document or for an empty tree; for a fragment, its first node that is
/// not a comment, or nothing when there is none.
pub fn panel_content(kind: DomKind, nodes: &Vec<HtmlNode>) -> (r: PanelContent)
    ensures
        kind == DomKind::Document ==> r == PanelContent::DocumentFound,
        kind == DomKind::Empty ==> r == PanelContent::NothingToShow,
        kind == DomKind::DocumentFragment ==> match r {
            PanelContent::Node(i) => i < nodes@.len() && !(nodes@[i as int] is Comment) && forall|j: int|
                0 <= j < i ==> nodes@[j] is Comment,
            PanelContent::Blank => forall|j: int| 0 <= j < nodes@.len() ==> nodes@[j] is Comment,
            _ => false,
        },
{
    match kind {
        DomKind::Document => PanelContent::DocumentFound,
        DomKind::Empty => PanelContent::NothingToShow,
        DomKind::DocumentFragment => {
            let n = nodes.len();
            let mut i: usize = 0;
            while i < n
                invariant
                    n == nodes@.len(),
                    kind == DomKind::DocumentFragment,
                    0 <= i <= n,
                    forall|j: int| 0 <= j < i ==> nodes@[j] is Comment,
                decreases n - i,
            {
                match &nodes[i] {
                    HtmlNode::Comment(_) => {},
                    _ => {
                        return PanelContent::Node(i);
                    },
                }
                i = i + 1;
            }
            PanelContent::Blank
        },
    }
}

/// The state of an editor panel: the file, its tab title, what it shows,
/// the text being edited and the parsed preview.
#[derive(Debug)]
pub struct EditorPanelState {
    pub file: String,
    pub tab_title: String,
    pub mode: PanelMode,
    pub text: String,
    pub preview_kind: DomKind,
    pub preview: Vec<HtmlNode>,
    pub content: PanelContent,
}

impl EditorPanelState {
    /// A panel for the file at `path` (named `file_name`) holding `text`:
    /// its mode and title (see `panel_mode_and_title`), and its preview, the
    /// text rendered to HTML with the panel's extensions and parsed (the
    /// kind and nodes are an outcome of parsing that HTML). `None` only when
    /// the HTML does not parse.
    pub fn new(path: &str, file_name: &str, text: String) -> (r: Option<Self>)
        ensures
            r is None ==> html_parse_outcome(markdown_html(text@, PANEL_MARKDOWN_OPTIONS), None),
            r matches Some(p) ==> {
                &&& html_parse_outcome(
                    markdown_html(text@, PANEL_MARKDOWN_OPTIONS),
                    Some((p.preview_kind, p.preview@)),
                )
                &&& p.file@ == path@
                &&& internal_page(path@) ==> p.mode == PanelMode::PreviewOnly && p.tab_title@
                    == "INTERNAL PAGE"@
                &&& !internal_page(path@) ==> p.mode == PanelMode::Combined && p.tab_title@ == file_name@
                &&& p.text == text
                &&& p.preview_kind == DomKind::Document ==> p.content == PanelContent::DocumentFound
                &&& p.preview_kind == DomKind::Empty ==> p.content == PanelContent::NothingToShow
                &&& p.preview_kind == DomKind::DocumentFragment ==> match p.content {
                    PanelContent::Node(i) => i < p.preview@.len() && !(p.preview@[i as int] is Comment)
                        && forall|j: int| 0 <= j < i ==> p.preview@[j] is Comment,
                    PanelContent::Blank => forall|j: int|
                        0 <= j < p.preview@.len() ==> p.preview@[j] is Comment,
                    _ => false,
                }
            },
    {
        let (mode, tab_title) = panel_mode_and_title(path, file_name);
        let html = render_markdown(text.as_str(), PANEL_MARKDOWN_OPTIONS);
        match parse_html(html.as_str()) {
            Some((kind, nodes)) => {
                let content = panel_content(kind, &nodes);
                Some(
                    EditorPanelState {
                        file: String::from_str(path),
                        tab_title,
                        mode,
                        text,
                        preview_kind: kind,
                        preview: nodes,
                        content,
                    },
                )
            },
            None => None,
        }
    }
}

} // verus!
