//! The document model of the editor window's preview.

use vstd::prelude::*;
use crate::storage::workspace::buffer::{
    attrs_view, html_parse_outcome, markdown_html, opt_view, parse_html, render_markdown,
    unescape_html_text, unescaped, DomKind, HtmlNode,
};
use crate::utils::links::{parse_url, url_parse};
use crate::storage::workspace::buffer::{attr_lookup, lookup_attribute};
use crate::storage::workspace::layout::{slots_view, LayoutSlot, SlotView};
use crate::utils::text::text_eq;
use crate::utils::text::{join_space, push_joined};

verus! {

/// An element of the preview: its tag name (`TEXT` for text, `INVALID` for
/// what cannot be shown), id, attributes, classes and children, and, for
/// text, the text itself.
#[derive(Debug)]
pub struct ElWrapper {
    pub id: Option<String>,
    pub name: String,
    pub attributes: Vec<(String, Option<String>)>,
    pub classes: Vec<String>,
    pub children: Vec<ElWrapper>,
    pub display_text: String,
}

/// The texts of a list of strings.
pub open spec fn texts(v: Seq<String>) -> Seq<Seq<char>> {
    v.map_values(|s: String| s@)
}

/// `el` is the preview element built from node `n`: text becomes a `TEXT`
/// element holding it, an element keeps its name, id, attributes, classes
/// and children (built in turn), anything else becomes `INVALID`.
pub open spec fn preview_built_from(el: ElWrapper, n: HtmlNode) -> bool
    decreases n,
{
    match n {
        HtmlNode::Text(t) => {
            &&& el.id is None
            &&& el.name@ == "TEXT"@
            &&& el.attributes@.len() == 0
            &&& el.classes@.len() == 0
            &&& el.children@.len() == 0
            &&& el.display_text@ == t@
        },
        HtmlNode::Element { name, id, classes, attributes, children } => {
            &&& opt_view(el.id) == opt_view(id)
            &&& el.name@ == name@
            &&& attrs_view(el.attributes@) == attrs_view(attributes@)
            &&& texts(el.classes@) == texts(classes@)
            &&& el.children@.len() == children@.len()
            &&& forall|i: int|
                0 <= i < children@.len() ==> preview_built_from(#[trigger] el.children@[i], children@[i])
            &&& el.display_text@.len() == 0
        },
        HtmlNode::Comment(_) => {
            &&& el.id is None
            &&& el.name@ == "INVALID"@
            &&& el.attributes@.len() == 0
            &&& el.classes@.len() == 0
            &&& el.children@.len() == 0
            &&& el.display_text@.len() == 0
        },
    }
}

fn clone_opt(o: &Option<String>) -> (r: Option<String>)
    ensures
        opt_view(r) == opt_view(*o),
{
    match o {
        Some(s) => Some(s.clone()),
        None => None,
    }
}

fn clone_strings(v: &Vec<String>) -> (r: Vec<String>)
    ensures
        texts(r@) == texts(v@),
{
    let mut out: Vec<String> = Vec::new();
    let n = v.len();
    for i in 0..n
        invariant
            n == v@.len(),
            out@.len() == i,
            forall|j: int| 0 <= j < i ==> texts(out@)[j] == #[trigger] texts(v@)[j],
    {
        out.push(v[i].clone());
    }
    assert(texts(out@) =~= texts(v@));
    out
}

fn clone_attributes(a: &Vec<(String, Option<String>)>) -> (r: Vec<(String, Option<String>)>)
    ensures
        attrs_view(r@) == attrs_view(a@),
{
    let mut out: Vec<(String, Option<String>)> = Vec::new();
    let n = a.len();
    for i in 0..n
        invariant
            n == a@.len(),
            out@.len() == i,
            forall|j: int| 0 <= j < i ==> attrs_view(out@)[j] == #[trigger] attrs_view(a@)[j],
    {
        let (k, v) = &a[i];
        out.push((k.clone(), clone_opt(v)));
    }
    assert(attrs_view(out@) =~= attrs_view(a@));
    out
}

impl ElWrapper {
    /// Builds the preview element for a node of a parsed fragment (see
    /// `preview_built_from`).
    pub fn new(el: HtmlNode) -> (r: ElWrapper)
        ensures
            preview_built_from(r, el),
    {
        Self::from_node(&el)
    }

    fn from_node(el: &HtmlNode) -> (r: ElWrapper)
        ensures
            preview_built_from(r, *el),
        decreases el,
    {
        match el {
            HtmlNode::Text(content) => ElWrapper {
                id: None,
                name: String::from_str("TEXT"),
                attributes: Vec::new(),
                classes: Vec::new(),
                children: Vec::new(),
                display_text: content.clone(),
            },
            HtmlNode::Element { name, id, classes, attributes, children } => {
                let mut kids: Vec<ElWrapper> = Vec::new();
                let n = children.len();
                for i in 0..n
                    invariant
                        n == children@.len(),
                        *el is Element,
                        el->children == *children,
                        kids@.len() == i,
                        forall|j: int| 0 <= j < i ==> preview_built_from(#[trigger] kids@[j], children@[j]),
                {
                    assert(decreases_to!(*el => el->children));
                    assert(decreases_to!(el->children => el->children@));
                    assert(decreases_to!(el->children@ => el->children@[i as int]));
                    kids.push(Self::from_node(&children[i]));
                }
                ElWrapper {
                    id: clone_opt(id),
                    name: name.clone(),
                    attributes: clone_attributes(attributes),
                    classes: clone_strings(classes),
                    children: kids,
                    display_text: String::new(),
                }
            },
            HtmlNode::Comment(_) => ElWrapper {
                id: None,
                name: String::from_str("INVALID"),
                attributes: Vec::new(),
                classes: Vec::new(),
                children: Vec::new(),
                display_text: String::new(),
            },
        }
    }
}

/// The nodes of a fragment that become preview elements: all but comments.
pub open spec fn preview_nodes(nodes: Seq<HtmlNode>) -> Seq<HtmlNode> {
    nodes.filter(|n: HtmlNode| !(n is Comment))
}

/// Builds the preview elements from the top-level nodes of a parsed
/// fragment: comments are dropped.
pub fn build_preview(nodes: Vec<HtmlNode>) -> (r: Vec<ElWrapper>)
    ensures
        r@.len() == preview_nodes(nodes@).len(),
        forall|i: int| 0 <= i < r@.len() ==> preview_built_from(#[trigger] r@[i], preview_nodes(nodes@)[i]),
{
    let mut els: Vec<ElWrapper> = Vec::new();
    let n = nodes.len();
    for i in 0..n
        invariant
            n == nodes@.len(),
            els@.len() == preview_nodes(nodes@.take(i as int)).len(),
            forall|j: int|
                0 <= j < els@.len() ==> preview_built_from(#[trigger] els@[j], preview_nodes(nodes@.take(i as int))[j]),
    {
        proof {
            assert(nodes@.take(i + 1).drop_last() =~= nodes@.take(i as int));
            reveal_with_fuel(Seq::filter, 1);
        }
        match &nodes[i] {
            HtmlNode::Comment(_) => {},
            _ => {
                els.push(ElWrapper::from_node(&nodes[i]));
            },
        }
    }
    assert(nodes@.take(n as int) =~= nodes@);
    els
}

/// The text of a list of preview elements: their texts unescaped and joined
/// with spaces.
pub open spec fn spec_greedy_text(els: Seq<ElWrapper>) -> Seq<char> {
    join_space(els.map_values(|e: ElWrapper| unescaped(e.display_text@)))
}

/// The text of a list of preview elements: their texts unescaped and joined
/// with spaces.
pub fn greedy_text(elements: &[ElWrapper]) -> (r: String)
    ensures
        r@ == spec_greedy_text(elements@),
{
    let mut out = String::new();
    let n = elements.len();
    let ghost parts = elements@.map_values(|e: ElWrapper| unescaped(e.display_text@));
    for i in 0..n
        invariant
            n == elements@.len(),
            parts == elements@.map_values(|e: ElWrapper| unescaped(e.display_text@)),
            out@ == join_space(parts.take(i as int)),
    {
        let t = unescape_html_text(elements[i].display_text.as_str());
        push_joined(&mut out, i, t.as_str());
        assert(parts.take(i + 1).drop_last() =~= parts.take(i as int));
    }
    assert(parts.take(n as int) =~= parts);
    out
}

/// The Markdown extensions of the preview: strikethrough (bit 3).
pub const PREVIEW_MARKDOWN_OPTIONS: u32 = 8;

/// Renders Markdown for the preview as HTML (the first step of
/// `Buffer::from_md`).
pub fn markdown_to_html(content: &str) -> (r: String)
    ensures
        r@ == markdown_html(content@, PREVIEW_MARKDOWN_OPTIONS),
{
    render_markdown(content, PREVIEW_MARKDOWN_OPTIONS)
}

/// A document shown in the editor's preview: its name, the URL it was read
/// from and its elements.
#[derive(Debug)]
pub struct Buffer {
    pub name: String,
    pub url: String,
    pub doc: Vec<ElWrapper>,
}

/// `doc` holds the preview elements built from the shown nodes (all but
/// comments) of a parsed fragment, in order.
pub open spec fn preview_document_from(doc: Seq<ElWrapper>, nodes: Seq<HtmlNode>) -> bool {
    &&& doc.len() == preview_nodes(nodes).len()
    &&& forall|i: int| 0 <= i < doc.len() ==> preview_built_from(#[trigger] doc[i], preview_nodes(nodes)[i])
}

/// `r` is what building a preview buffer named `name` from the URL `url`
/// and the HTML text `html` gives: a buffer with the name, the parsed URL
/// and the elements built from the nodes of a parse of the text; or `None`,
/// which comes only when the URL or the text does not parse.
pub open spec fn preview_built(r: Option<Buffer>, name: String, url: Seq<char>, html: Seq<char>) -> bool {
    match r {
        Some(b) => {
            &&& b.name == name
            &&& url_parse(url) matches Some(p) && b.url@ == p.0
            &&& exists|k: DomKind, nodes: Seq<HtmlNode>|
                #[trigger] html_parse_outcome(html, Some((k, nodes))) && preview_document_from(b.doc@, nodes)
        },
        None => url_parse(url) is None || html_parse_outcome(html, None),
    }
}

impl Buffer {
    /// Builds a preview buffer from an HTML text: the text is parsed and its
    /// shown top-level nodes built, and `url` is parsed. `None` when the text
    /// or the URL does not parse.
    pub fn new(name: String, url: &str, content: &str) -> (r: Option<Buffer>)
        ensures
            preview_built(r, name, url@, content@),
    {
        let (kind, nodes) = match parse_html(content) {
            Some(parsed) => parsed,
            None => {
                return None;
            },
        };
        let ghost parsed = nodes@;
        assert(html_parse_outcome(content@, Some((kind, parsed))));
        let doc = build_preview(nodes);
        match parse_url(url) {
            Some(parts) => {
                let b = Buffer { name, url: parts.serialization, doc };
                assert(preview_document_from(b.doc@, parsed));
                Some(b)
            },
            None => None,
        }
    }

    /// Builds a preview buffer from a Markdown text, rendered to HTML with
    /// the preview's extensions first.
    pub fn from_md(name: String, url: &str, content: &str) -> (r: Option<Buffer>)
        ensures
            preview_built(r, name, url@, markdown_html(content@, PREVIEW_MARKDOWN_OPTIONS)),
    {
        let html = markdown_to_html(content);
        Self::new(name, url, html.as_str())
    }
}

/// A preview element shown as a text span (text, inline code, list items
/// and links); every other element is a widget of its own.
pub open spec fn preview_is_span(el: ElWrapper) -> bool {
    let n = el.name@;
    n == "TEXT"@ || n == "code"@ || n == "li"@ || n == "a"@
}

/// Whether a preview element is shown as a text span.
pub fn is_span(el: &ElWrapper) -> (r: bool)
    ensures
        r == preview_is_span(*el),
{
    let name = el.name.as_str();
    text_eq(name, "TEXT") || text_eq(name, "code") || text_eq(name, "li") || text_eq(name, "a")
}

/// The preview column after the first `k` elements, and the pending spans:
/// a span joins the pending spans; a widget closes them into an entry and
/// takes the next entry.
pub open spec fn preview_layout_after(els: Seq<ElWrapper>, k: nat) -> (Seq<SlotView>, Seq<usize>)
    decreases k,
{
    if k == 0 {
        (Seq::empty(), Seq::empty())
    } else {
        let (slots, spans) = preview_layout_after(els, (k - 1) as nat);
        let i = (k - 1) as usize;
        if preview_is_span(els[k - 1]) {
            (slots, spans.push(i))
        } else {
            (slots.push(SlotView::Spans(spans)).push(SlotView::Block(i)), Seq::empty())
        }
    }
}

/// The preview column of a list of elements: the entries made while
/// walking it, then the pending spans.
pub open spec fn spec_preview_layout(els: Seq<ElWrapper>) -> Seq<SlotView> {
    let (slots, spans) = preview_layout_after(els, els.len());
    slots.push(SlotView::Spans(spans))
}

/// Lays out a list of preview elements as a column (the structure of the
/// preview's greedy rendering): runs of spans and widgets in turn.
pub fn preview_layout(elements: &Vec<ElWrapper>) -> (r: Vec<LayoutSlot>)
    ensures
        slots_view(r@) == spec_preview_layout(elements@),
{
    let ghost els = elements@;
    let n = elements.len();
    let mut slots: Vec<LayoutSlot> = Vec::new();
    let mut spans: Vec<usize> = Vec::new();
    let mut i: usize = 0;
    assert(slots_view(slots@) =~= Seq::<SlotView>::empty());
    while i < n
        invariant
            n == els.len(),
            els == elements@,
            0 <= i <= n,
            slots_view(slots@) == preview_layout_after(els, i as nat).0,
            spans@ == preview_layout_after(els, i as nat).1,
        decreases n - i,
    {
        if is_span(&elements[i]) {
            spans.push(i);
        } else {
            let pending = spans;
            let ghost before = slots@;
            slots.push(LayoutSlot::Spans(pending));
            slots.push(LayoutSlot::Block(i));
            assert(slots_view(slots@) =~= slots_view(before).push(SlotView::Spans(pending@)).push(
                SlotView::Block(i),
            ));
            spans = Vec::new();
        }
        i = i + 1;
        assert(spans@ =~= preview_layout_after(els, i as nat).1);
    }
    slots.push(LayoutSlot::Spans(spans));
    assert(slots_view(slots@) =~= spec_preview_layout(els));
    slots
}

/// The target of a link: its `href` attribute, when it has a value.
pub fn link_target(el: &ElWrapper) -> (r: Option<String>)
    ensures
        match attr_lookup(attrs_view(el.attributes@), "href"@) {
            Some(Some(v)) => r matches Some(t) && t@ == v,
            _ => r is None,
        },
{
    match lookup_attribute(&el.attributes, "href") {
        Some(Some(v)) => Some(v),
        _ => None,
    }
}

} // verus!
