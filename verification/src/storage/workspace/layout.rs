//! The layout of a rendered document: which elements flow as text spans,
//! which sit in a wrapping row, which take a line of their own, and where a
//! first-level heading is re-rendered with the text of its section.

use vstd::prelude::*;
use crate::storage::workspace::buffer::{
    attr_lookup, attrs_view, spec_view_text, text_defined, ElWrapper,
};
use crate::utils::text::text_eq;

verus! {

/// How an element is shown in the flow of its parent.
#[derive(Debug, Clone, Copy, PartialEq, Eq, Structural)]
pub enum RenderKind {
    /// A text span, joined with the spans around it into one rich text.
    Span,
    /// A widget that may share a wrapping row with other inline widgets.
    Inline,
    /// A widget on a line of its own.
    Block,
}

/// How an element is shown (the kind of `ElWrapper::view`'s render): text,
/// inline code, list items, images and links whose first child is text are
/// spans; a link whose first child is an element is an inline widget; every
/// other element is a block.
pub open spec fn spec_render_kind(el: ElWrapper) -> RenderKind {
    let n = el.name@;
    if n == "TEXT"@ || n == "code"@ || n == "li"@ || n == "img"@ {
        RenderKind::Span
    } else if n == "a"@ {
        if el.children@.len() > 0 && el.children@[0].name@ != "TEXT"@ {
            RenderKind::Inline
        } else {
            RenderKind::Span
        }
    } else {
        RenderKind::Block
    }
}

/// The kind of an element; a link must have a first child to look at.
pub fn render_kind(el: &ElWrapper) -> (r: RenderKind)
    requires
        el.name@ == "a"@ ==> el.children@.len() > 0,
    ensures
        r == spec_render_kind(*el),
{
    let name = el.name.as_str();
    if text_eq(name, "TEXT") || text_eq(name, "code") || text_eq(name, "li") || text_eq(name, "img") {
        RenderKind::Span
    } else if text_eq(name, "a") {
        if !text_eq(el.children[0].name.as_str(), "TEXT") {
            RenderKind::Inline
        } else {
            RenderKind::Span
        }
    } else {
        RenderKind::Block
    }
}

/// An entry of a laid-out column.
#[derive(Debug)]
pub enum LayoutSlot {
    /// One rich text made of the spans of these elements (by index).
    Spans(Vec<usize>),
    /// A wrapping row of these inline elements (by index).
    InlineRow(Vec<usize>),
    /// This element on a line of its own.
    Block(usize),
    /// This first-level heading, read with the text of the section before
    /// it.
    SectionHeading(usize, String),
}

/// An entry of a laid-out column, as plain values.
pub enum SlotView {
    Spans(Seq<usize>),
    InlineRow(Seq<usize>),
    Block(usize),
    SectionHeading(usize, Seq<char>),
}

impl View for LayoutSlot {
    type V = SlotView;

    open spec fn view(&self) -> SlotView {
        match self {
            LayoutSlot::Spans(v) => SlotView::Spans(v@),
            LayoutSlot::InlineRow(v) => SlotView::InlineRow(v@),
            LayoutSlot::Block(i) => SlotView::Block(*i),
            LayoutSlot::SectionHeading(i, t) => SlotView::SectionHeading(*i, t@),
        }
    }
}

/// The entries of a column, as plain values.
pub open spec fn slots_view(s: Seq<LayoutSlot>) -> Seq<SlotView> {
    s.map_values(|x: LayoutSlot| x@)
}

/// The texts of a list of strings.
pub open spec fn texts_of(v: Seq<String>) -> Seq<Seq<char>> {
    v.map_values(|s: String| s@)
}

/// The state of a layout in progress: the column so far, the pending spans,
/// the pending inline elements, the text read since the last first-level
/// heading, the index of that heading, and whether every heading found the
/// entry it replaces.
pub type LayoutState = (Seq<SlotView>, Seq<usize>, Seq<usize>, Seq<char>, usize, bool);

/// Lays out element `el`, at index `i`: when sections are tracked, a
/// first-level heading that is not the first entry replaces the entry after the previous heading's index
/// with itself, read with the section text, and starts a new section; the
/// element's text is added to the section; a span joins the pending spans;
/// an inline widget closes the pending spans into an entry and joins the
/// pending row; a block closes the pending spans and the pending row into
/// entries and takes the next entry.
pub open spec fn layout_step(st: LayoutState, el: ElWrapper, i: usize, sections: bool) -> LayoutState {
    let slots = st.0;
    let spans = st.1;
    let inline = st.2;
    let section = st.3;
    let last = st.4;
    let heading = sections && el.name@ == "h1"@ && slots.len() > 0;
    let in_bounds = last + 1 < slots.len();
    let slots1 = if heading && in_bounds {
        slots.update(last + 1, SlotView::SectionHeading(i, section))
    } else {
        slots
    };
    let section1 = (if heading {
        Seq::<char>::empty()
    } else {
        section
    }) + seq![' '] + spec_view_text(el, None);
    let last1 = if heading {
        i
    } else {
        last
    };
    let ok1 = st.5 && (heading ==> in_bounds);
    match spec_render_kind(el) {
        RenderKind::Span => (slots1, spans.push(i), inline, section1, last1, ok1),
        RenderKind::Inline => (
            slots1.push(SlotView::Spans(spans)),
            Seq::empty(),
            inline.push(i),
            section1,
            last1,
            ok1,
        ),
        RenderKind::Block => (
            slots1.push(SlotView::Spans(spans)).push(SlotView::InlineRow(inline)).push(
                SlotView::Block(i),
            ),
            Seq::empty(),
            Seq::empty(),
            section1,
            last1,
            ok1,
        ),
    }
}

/// The state after laying out the first `k` elements, tracking sections or
/// not.
pub open spec fn layout_state_with(els: Seq<ElWrapper>, k: nat, sections: bool) -> LayoutState
    decreases k,
{
    if k == 0 {
        (Seq::empty(), Seq::empty(), Seq::empty(), Seq::empty(), 0, true)
    } else {
        layout_step(layout_state_with(els, (k - 1) as nat, sections), els[k - 1], (k - 1) as usize, sections)
    }
}

/// The state after laying out the first `k` elements, tracking sections.
pub open spec fn layout_state(els: Seq<ElWrapper>, k: nat) -> LayoutState {
    layout_state_with(els, k, true)
}

/// The column of a laid-out list of elements, tracking sections or not: the
/// entries made while walking it, then the pending spans and the pending
/// row.
pub open spec fn spec_layout_with(els: Seq<ElWrapper>, sections: bool) -> Seq<SlotView> {
    let st = layout_state_with(els, els.len(), sections);
    st.0.push(SlotView::Spans(st.1)).push(SlotView::InlineRow(st.2))
}

/// The column of a laid-out list of elements, whose first-level headings
/// are re-read with their sections (the buffer's greedy rendering).
pub open spec fn spec_layout(els: Seq<ElWrapper>) -> Seq<SlotView> {
    spec_layout_with(els, true)
}

/// The column of the content of an aligned table cell: the same flow, with
/// no section tracking.
pub open spec fn spec_layout_aligned(els: Seq<ElWrapper>) -> Seq<SlotView> {
    spec_layout_with(els, false)
}

/// The texts a screen reader is given for a list of elements, one each.
pub open spec fn layout_texts(els: Seq<ElWrapper>) -> Seq<Seq<char>> {
    Seq::new(els.len(), |j: int| spec_view_text(els[j], None))
}

/// Every first-level heading finds the entry it replaces.
pub open spec fn headings_in_bounds(els: Seq<ElWrapper>) -> bool {
    layout_state(els, els.len()).5
}

/// The elements whose widgets can be built, as `ElWrapper::view` builds
/// them: a link needs a first child; preformatted text needs a child; a
/// styled table cell needs a style value; a table head needs a row; and the
/// children laid out in turn (of paragraphs, divisions, links whose first
/// child is an element and table cells) or shown as cells must be buildable,
/// with every heading among laid-out children finding its entry.
pub open spec fn render_defined(el: ElWrapper) -> bool
    decreases el, 1nat,
{
    let n = el.name@;
    if n == "a"@ {
        &&& el.children@.len() > 0
        &&& el.children@[0].name@ != "TEXT"@ ==> children_render_defined(el.children@)
    } else if n == "p"@ || n == "div"@ {
        children_render_defined(el.children@)
    } else if n == "pre"@ {
        el.children@.len() > 0
    } else if n == "th"@ || n == "td"@ {
        match attr_lookup(attrs_view(el.attributes@), "style"@) {
            Some(v) => v is Some && forall|i: int|
                0 <= i < el.children@.len() ==> render_defined(#[trigger] el.children@[i]),
            None => children_render_defined(el.children@),
        }
    } else if n == "table"@ {
        forall|i: int| 0 <= i < el.children@.len() ==> table_part_defined(#[trigger] el.children@[i])
    } else {
        true
    }
}

/// A part of a table whose cells can be built: the cells of a head's first
/// row, or of every row of a body.
pub open spec fn table_part_defined(part: ElWrapper) -> bool
    decreases part, 0nat,
{
    if part.name@ == "thead"@ {
        &&& part.children@.len() > 0
        &&& forall|j: int|
            0 <= j < part.children@[0].children@.len() ==> render_defined(
                #[trigger] part.children@[0].children@[j],
            )
    } else if part.name@ == "tbody"@ {
        forall|r: int, j: int|
            0 <= r < part.children@.len() && 0 <= j < part.children@[r].children@.len()
                ==> render_defined(#[trigger] part.children@[r].children@[j])
    } else {
        true
    }
}

/// Children laid out in turn: each can be built and every first-level
/// heading among them finds its entry.
pub open spec fn children_render_defined(els: Seq<ElWrapper>) -> bool
    decreases els, 0nat,
{
    &&& forall|i: int| 0 <= i < els.len() ==> render_defined(#[trigger] els[i])
    &&& headings_in_bounds(els)
}

/// The lists of elements that `layout_plan` accepts: each element's text can
/// be read and its widget built, and every first-level heading finds the
/// entry it replaces.
pub open spec fn layout_defined(els: Seq<ElWrapper>) -> bool {
    &&& forall|i: int| 0 <= i < els.len() ==> text_defined(#[trigger] els[i])
    &&& children_render_defined(els)
}

/// The texts of the elements from `a` up to, not including, `b`, each
/// preceded by a space.
pub open spec fn spaced_texts(els: Seq<ElWrapper>, a: int, b: int) -> Seq<char>
    decreases b - a,
{
    if b <= a {
        Seq::empty()
    } else {
        spaced_texts(els, a, b - 1) + seq![' '] + spec_view_text(els[b - 1], None)
    }
}

/// The section text of a layout in progress is exactly the texts of the
/// elements from the last first-level heading that started a section (or
/// from the first element, before any) up to the current one; without
/// section tracking no section is ever started.
pub proof fn lemma_section_text(els: Seq<ElWrapper>, k: nat, sections: bool)
    requires
        k <= els.len(),
        els.len() <= usize::MAX,
    ensures
        k == 0 ==> layout_state_with(els, k, sections).4 == 0,
        k > 0 ==> layout_state_with(els, k, sections).4 < k,
        !sections ==> layout_state_with(els, k, sections).4 == 0,
        layout_state_with(els, k, sections).3 == spaced_texts(
            els,
            layout_state_with(els, k, sections).4 as int,
            k as int,
        ),
    decreases k,
{
    if k > 0 {
        lemma_section_text(els, (k - 1) as nat, sections);
        let st = layout_state_with(els, (k - 1) as nat, sections);
        let el = els[k - 1];
        assert(((k - 1) as usize) as int == k - 1);
        let heading = sections && el.name@ == "h1"@ && st.0.len() > 0;
        let next = layout_state_with(els, k, sections);
        if heading {
            assert(next.4 == k - 1);
            assert(spaced_texts(els, k - 1, k - 1) == Seq::<char>::empty());
            assert(next.3 =~= spaced_texts(els, k - 1, k as int));
        } else {
            assert(next.4 == st.4);
            assert(next.3 == st.3 + seq![' '] + spec_view_text(el, None));
        }
    }
}

/// When the element at `k` is a first-level heading that replaces an
/// entry, the entry after the previous section's start becomes this heading
/// read with the texts of the elements from that start up to, not
/// including, the heading; the heading then starts the next section, whose
/// text so far is its own.
pub proof fn lemma_section_heading_entry(els: Seq<ElWrapper>, k: nat)
    requires
        k < els.len(),
        els.len() <= usize::MAX,
        els[k as int].name@ == "h1"@,
        layout_state(els, k).0.len() > 0,
        layout_state(els, k).4 + 1 < layout_state(els, k).0.len(),
    ensures
        layout_state(els, k + 1).0[layout_state(els, k).4 + 1] == SlotView::SectionHeading(
            k as usize,
            spaced_texts(els, layout_state(els, k).4 as int, k as int),
        ),
        layout_state(els, k + 1).4 == k,
        layout_state(els, k + 1).3 == seq![' '] + spec_view_text(els[k as int], None),
{
    lemma_section_text(els, k, true);
    let st = layout_state(els, k);
    let next = layout_state(els, k + 1);
    assert(next == layout_step(st, els[k as int], k as usize, true));
    assert(next.3 =~= seq![' '] + spec_view_text(els[k as int], None));
}

/// Once a heading misses its entry, the layout stays refused.
proof fn lemma_in_bounds_prefix(els: Seq<ElWrapper>, k: nat, n: nat, sections: bool)
    requires
        k <= n,
        layout_state_with(els, n, sections).5,
    ensures
        layout_state_with(els, k, sections).5,
    decreases n - k,
{
    if k < n {
        lemma_in_bounds_prefix(els, k + 1, n, sections);
    }
}

/// Without section tracking no heading replaces an entry, so the layout is
/// never refused.
proof fn lemma_unsectioned_in_bounds(els: Seq<ElWrapper>, k: nat)
    ensures
        layout_state_with(els, k, false).5,
    decreases k,
{
    if k > 0 {
        lemma_unsectioned_in_bounds(els, (k - 1) as nat);
    }
}

fn push_index(v: &mut Vec<usize>, i: usize)
    ensures
        final(v)@ == old(v)@.push(i),
{
    v.push(i);
}

fn layout_with(elements: &Vec<ElWrapper>, sections: bool) -> (r: (Vec<LayoutSlot>, Vec<String>))
    requires
        forall|i: int| 0 <= i < elements@.len() ==> text_defined(#[trigger] elements@[i]),
        forall|i: int| 0 <= i < elements@.len() ==> render_defined(#[trigger] elements@[i]),
        layout_state_with(elements@, elements@.len(), sections).5,
    ensures
        slots_view(r.0@) == spec_layout_with(elements@, sections),
        texts_of(r.1@) == layout_texts(elements@),
{
    let ghost els = elements@;
    let n = elements.len();
    let mut slots: Vec<LayoutSlot> = Vec::new();
    let mut spans: Vec<usize> = Vec::new();
    let mut inline: Vec<usize> = Vec::new();
    let mut section = String::new();
    let mut last: usize = 0;
    let mut texts: Vec<String> = Vec::new();
    let mut i: usize = 0;
    proof {
        assert(slots_view(slots@) =~= Seq::<SlotView>::empty());
        assert(section@ =~= Seq::<char>::empty());
    }
    while i < n
        invariant
            n == els.len(),
            els == elements@,
            0 <= i <= n,
            forall|j: int| 0 <= j < els.len() ==> text_defined(#[trigger] els[j]),
            forall|j: int| 0 <= j < els.len() ==> render_defined(#[trigger] els[j]),
            layout_state_with(els, n as nat, sections).5,
            ({
                let st = layout_state_with(els, i as nat, sections);
                &&& slots_view(slots@) == st.0
                &&& spans@ == st.1
                &&& inline@ == st.2
                &&& section@ == st.3
                &&& last == st.4
                &&& st.5
            }),
            texts_of(texts@) == layout_texts(els).take(i as int),
            last < n || last == 0,
        decreases n - i,
    {
        proof {
            lemma_in_bounds_prefix(els, (i + 1) as nat, n as nat, sections);
        }
        let ghost st = layout_state_with(els, i as nat, sections);
        let el = &elements[i];
        assert(text_defined(els[i as int]));
        assert(render_defined(els[i as int]));
        let tts = el.view_text(None);
        let heading = sections && text_eq(el.name.as_str(), "h1") && slots.len() > 0;
        if heading {
            let heading_text = section.clone();
            let ghost before = slots@;
            slots.set(last + 1, LayoutSlot::SectionHeading(i, heading_text));
            assert(slots_view(slots@) =~= slots_view(before).update(
                last + 1,
                SlotView::SectionHeading(i, st.3),
            ));
            section = String::new();
            last = i;
        }
        section = section.concat(" ").concat(tts.as_str());
        proof {
            reveal_strlit(" ");
        }
        let kind = render_kind(el);
        match kind {
            RenderKind::Span => {
                push_index(&mut spans, i);
            },
            RenderKind::Inline => {
                let pending = spans;
                let ghost before = slots@;
                slots.push(LayoutSlot::Spans(pending));
                assert(slots_view(slots@) =~= slots_view(before).push(SlotView::Spans(pending@)));
                spans = Vec::new();
                push_index(&mut inline, i);
            },
            RenderKind::Block => {
                let pending = spans;
                let row = inline;
                let ghost before = slots@;
                slots.push(LayoutSlot::Spans(pending));
                slots.push(LayoutSlot::InlineRow(row));
                slots.push(LayoutSlot::Block(i));
                assert(slots_view(slots@) =~= slots_view(before).push(SlotView::Spans(pending@)).push(
                    SlotView::InlineRow(row@),
                ).push(SlotView::Block(i)));
                spans = Vec::new();
                inline = Vec::new();
            },
        }
        let ghost before_texts = texts@;
        texts.push(tts);
        assert(texts_of(texts@) =~= texts_of(before_texts).push(tts@));
        assert(layout_texts(els).take(i + 1) =~= layout_texts(els).take(i as int).push(tts@));
        i = i + 1;
        assert(spans@ =~= layout_state_with(els, i as nat, sections).1);
        assert(inline@ =~= layout_state_with(els, i as nat, sections).2);
        assert(section@ =~= layout_state_with(els, i as nat, sections).3);
        assert(slots_view(slots@) =~= layout_state_with(els, i as nat, sections).0);
    }
    slots.push(LayoutSlot::Spans(spans));
    slots.push(LayoutSlot::InlineRow(inline));
    assert(slots_view(slots@) =~= spec_layout_with(els, sections));
    assert(layout_texts(els).take(n as int) =~= layout_texts(els));
    (slots, texts)
}

/// Lays out a list of elements as a column (the structure of the buffer's
/// greedy rendering): the entries of `spec_layout`, and the text of each
/// element.
pub fn layout_plan(elements: &Vec<ElWrapper>) -> (r: (Vec<LayoutSlot>, Vec<String>))
    requires
        layout_defined(elements@),
    ensures
        slots_view(r.0@) == spec_layout(elements@),
        texts_of(r.1@) == layout_texts(elements@),
{
    layout_with(elements, true)
}

/// Lays out the content of an aligned table cell as a column: the entries
/// of `spec_layout_aligned`, and the text of each element.
pub fn layout_plan_aligned(elements: &Vec<ElWrapper>) -> (r: (Vec<LayoutSlot>, Vec<String>))
    requires
        forall|i: int| 0 <= i < elements@.len() ==> text_defined(#[trigger] elements@[i]),
        forall|i: int| 0 <= i < elements@.len() ==> render_defined(#[trigger] elements@[i]),
    ensures
        slots_view(r.0@) == spec_layout_aligned(elements@),
        texts_of(r.1@) == layout_texts(elements@),
{
    proof {
        lemma_unsectioned_in_bounds(elements@, elements@.len());
    }
    layout_with(elements, false)
}

/// The horizontal alignment of a table cell's content.
#[derive(Debug, Clone, Copy, PartialEq, Eq, Structural)]
pub enum Alignment {
    Left,
    Center,
    Right,
}

/// The alignment a cell's `style` attribute asks for: exactly
/// `text-align: center` or `text-align: right`; anything else is left.
pub fn cell_alignment(style: &str) -> (r: Alignment)
    ensures
        r == if style@ == "text-align: center"@ {
            Alignment::Center
        } else if style@ == "text-align: right"@ {
            Alignment::Right
        } else {
            Alignment::Left
        },
{
    if text_eq(style, "text-align: center") {
        Alignment::Center
    } else if text_eq(style, "text-align: right") {
        Alignment::Right
    } else {
        Alignment::Left
    }
}

} // verus!
