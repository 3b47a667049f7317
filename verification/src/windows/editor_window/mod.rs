//! The rich presence activity an editor window reports.

use vstd::prelude::*;

pub mod editor_panel;

verus! {

/// The number of seconds without interaction after which the editor is idle.
pub const IDLE_AFTER_SECONDS: i64 = 30;

/// Whether the editor is idle at `now` (both in seconds): more than
/// `IDLE_AFTER_SECONDS` since the last interaction; when idle, the time it
/// has been idle since, else 0.
pub fn activity_is_idle(now: i64, last_interaction: i64) -> (r: (bool, i64))
    requires
        i64::MIN <= now - last_interaction <= i64::MAX,
    ensures
        r == if now - last_interaction > IDLE_AFTER_SECONDS {
            (true, last_interaction)
        } else {
            (false, 0i64)
        },
{
    let diff = now - last_interaction;
    if diff > IDLE_AFTER_SECONDS {
        (true, last_interaction)
    } else {
        (false, 0)
    }
}

/// The start time the activity shows: the idle start when idle, else the
/// time of the last file change.
pub fn activity_start(now: i64, last_interaction: i64, last_file_change: i64) -> (r: i64)
    requires
        i64::MIN <= now - last_interaction <= i64::MAX,
    ensures
        r == if now - last_interaction > IDLE_AFTER_SECONDS {
            last_interaction
        } else {
            last_file_change
        },
{
    let (idle, since) = activity_is_idle(now, last_interaction);
    if idle {
        since
    } else {
        last_file_change
    }
}

/// The state line of the activity: `idle`, or what file is being worked on.
pub fn activity_state(now: i64, last_interaction: i64, current_file_name: &str) -> (r: String)
    requires
        i64::MIN <= now - last_interaction <= i64::MAX,
    ensures
        r@ == if now - last_interaction > IDLE_AFTER_SECONDS {
            "idle"@
        } else {
            "Working on '"@ + current_file_name@ + "'"@
        },
{
    let (idle, _) = activity_is_idle(now, last_interaction);
    if idle {
        String::from_str("idle")
    } else {
        String::from_str("Working on '").concat(current_file_name).concat("'")
    }
}

/// The details line of the activity: the workspace name, or a placeholder.
pub fn activity_details(workspace_name: &Option<String>) -> (r: String)
    ensures
        r@ == match workspace_name {
            Some(n) => n@,
            None => "Unknown Workspace"@,
        },
{
    match workspace_name {
        Some(n) => n.clone(),
        None => String::from_str("Unknown Workspace"),
    }
}

/// The kind of a token of the Markdown preview.
#[derive(Debug, Clone, Copy, PartialEq, Eq, Structural)]
pub enum MarkdownKind {
    /// A heading of this level.
    Heading(usize),
    /// A paragraph.
    Paragraph,
}

/// A token of the Markdown preview: its kind and the text gathered in it.
#[derive(Debug)]
pub struct MarkdownToken {
    pub kind: MarkdownKind,
    pub content: Option<String>,
}

/// A token as plain values.
pub open spec fn token_view(t: MarkdownToken) -> (MarkdownKind, Option<Seq<char>>) {
    (
        t.kind,
        match t.content {
            Some(c) => Some(c@),
            None => None,
        },
    )
}

/// The tokens of a preview as plain values.
pub open spec fn tokens_view(ts: Seq<MarkdownToken>) -> Seq<(MarkdownKind, Option<Seq<char>>)> {
    ts.map_values(|t: MarkdownToken| token_view(t))
}

/// The Markdown parser's events that the preview reads.
#[derive(Debug)]
pub enum MdEvent {
    /// A heading of this level starts.
    StartHeading(usize),
    /// A paragraph starts.
    StartParagraph,
    /// Any other block or inline element starts.
    StartOther,
    /// Text.
    Text(String),
    /// Any other event (an end, code, a break, ...).
    Other,
}

/// An event as plain values.
pub enum MdEventView {
    StartHeading(usize),
    StartParagraph,
    StartOther,
    Text(Seq<char>),
    Other,
}

impl View for MdEvent {
    type V = MdEventView;

    open spec fn view(&self) -> MdEventView {
        match self {
            MdEvent::StartHeading(l) => MdEventView::StartHeading(*l),
            MdEvent::StartParagraph => MdEventView::StartParagraph,
            MdEvent::StartOther => MdEventView::StartOther,
            MdEvent::Text(t) => MdEventView::Text(t@),
            MdEvent::Other => MdEventView::Other,
        }
    }
}

/// The events of a list, as plain values.
pub open spec fn events_view(es: Seq<MdEvent>) -> Seq<MdEventView> {
    es.map_values(|e: MdEvent| e@)
}

/// The events that pulldown-cmark's parser (with no extension) produces
/// for a Markdown text.
pub uninterp spec fn markdown_event_stream(text: Seq<char>) -> Seq<MdEventView>;

/// Trusted: the events of `pulldown_cmark::Parser::new`, each given as the
/// plain event it is (a heading start with its level as a number).
#[verifier::external_body]
fn markdown_events(text: &str) -> (r: Vec<MdEvent>)
    ensures
        events_view(r@) == markdown_event_stream(text@),
{
    pulldown_cmark::Parser::new(text).map(|event| match event {
        pulldown_cmark::Event::Start(pulldown_cmark::Tag::Heading { level, .. }) => MdEvent::StartHeading(level as usize),
        pulldown_cmark::Event::Start(pulldown_cmark::Tag::Paragraph) => MdEvent::StartParagraph,
        pulldown_cmark::Event::Start(_) => MdEvent::StartOther,
        pulldown_cmark::Event::Text(content) => MdEvent::Text(content.to_string()),
        _ => MdEvent::Other,
    }).collect()
}

/// The tokens after the first `k` events: a heading or paragraph start opens
/// a token; text is added to the content of the last token; `None` once
/// text comes before any token.
pub open spec fn tokens_after(es: Seq<MdEventView>, k: nat) -> Option<Seq<(MarkdownKind, Option<Seq<char>>)>>
    decreases k,
{
    if k == 0 {
        Some(Seq::empty())
    } else {
        match tokens_after(es, (k - 1) as nat) {
            None => None,
            Some(ts) => match es[k - 1] {
                MdEventView::StartHeading(l) => Some(ts.push((MarkdownKind::Heading(l), None))),
                MdEventView::StartParagraph => Some(ts.push((MarkdownKind::Paragraph, None))),
                MdEventView::Text(t) => if ts.len() == 0 {
                    None
                } else {
                    let last = ts.last();
                    Some(
                        ts.update(
                            ts.len() - 1,
                            (
                                last.0,
                                Some(
                                    match last.1 {
                                        Some(c) => c + t,
                                        None => t,
                                    },
                                ),
                            ),
                        ),
                    )
                },
                _ => Some(ts),
            },
        }
    }
}

/// The tokens of a whole event list (`None` when text comes first).
pub open spec fn spec_tokens(es: Seq<MdEventView>) -> Option<Seq<(MarkdownKind, Option<Seq<char>>)>> {
    tokens_after(es, es.len())
}

proof fn lemma_tokens_prefix(es: Seq<MdEventView>, k: nat, n: nat)
    requires
        k <= n,
        tokens_after(es, n) is Some,
    ensures
        tokens_after(es, k) is Some,
    decreases n - k,
{
    if k < n {
        lemma_tokens_prefix(es, k + 1, n);
    }
}

/// A heading or paragraph start: the events that open a token.
pub open spec fn opens_token(e: MdEventView) -> bool {
    e is StartHeading || e is StartParagraph
}

/// The kind of token a start event opens.
pub open spec fn opened_kind(e: MdEventView) -> MarkdownKind {
    match e {
        MdEventView::StartHeading(l) => MarkdownKind::Heading(l),
        _ => MarkdownKind::Paragraph,
    }
}

/// How many of the first `k` events open a token.
pub open spec fn opened_count(es: Seq<MdEventView>, k: int) -> nat
    decreases k,
{
    if k <= 0 {
        0
    } else {
        opened_count(es, k - 1) + if opens_token(es[k - 1]) {
            1nat
        } else {
            0nat
        }
    }
}

/// No event from `a` up to, not including, `b` opens a token.
pub open spec fn none_open(es: Seq<MdEventView>, a: int, b: int) -> bool {
    forall|i: int| a <= i < b ==> !opens_token(#[trigger] es[i])
}

/// The texts of the text events from `a` up to, not including, `b` that
/// come before the next token start, concatenated in order; `None` when
/// there is no such text event.
pub open spec fn run_text(es: Seq<MdEventView>, a: int, b: int) -> Option<Seq<char>>
    decreases b - a,
{
    if b <= a {
        None
    } else if !none_open(es, a, b - 1) {
        run_text(es, a, b - 1)
    } else {
        match es[b - 1] {
            MdEventView::Text(t) => Some(
                match run_text(es, a, b - 1) {
                    Some(c) => c + t,
                    None => t,
                },
            ),
            _ => run_text(es, a, b - 1),
        }
    }
}

/// Counting token starts: a start at `s` is counted before `k > s`; exactly
/// one start (itself) lies in `s .. k` when none follows it there, and at
/// least two otherwise.
proof fn lemma_opened_gap(es: Seq<MdEventView>, s: int, k: int)
    requires
        0 <= s < k <= es.len(),
        opens_token(es[s]),
    ensures
        none_open(es, s + 1, k) ==> opened_count(es, k) == opened_count(es, s) + 1,
        !none_open(es, s + 1, k) ==> opened_count(es, k) >= opened_count(es, s) + 2,
    decreases k - s,
{
    if k > s + 1 {
        lemma_opened_gap(es, s, k - 1);
        if none_open(es, s + 1, k - 1) && !opens_token(es[k - 1]) {
            assert(none_open(es, s + 1, k));
        }
        if !none_open(es, s + 1, k - 1) {
            let i = choose|i: int| s + 1 <= i < k - 1 && opens_token(#[trigger] es[i]);
            assert(!none_open(es, s + 1, k)) by {
                assert(opens_token(es[i]));
            }
        }
        if opens_token(es[k - 1]) {
            assert(!none_open(es, s + 1, k)) by {
                assert(opens_token(es[k - 1]));
            }
        }
    }
}

/// The tokens after the first `k` events: one per start among them, and the
/// token opened at `s` has the kind of its start and the text of the text
/// events after it up to the next start (or up to `k`).
proof fn lemma_tokens_upto(es: Seq<MdEventView>, k: nat)
    requires
        k <= es.len(),
        tokens_after(es, k) is Some,
    ensures
        tokens_after(es, k).unwrap().len() == opened_count(es, k as int),
        forall|s: int|
            #![trigger opens_token(es[s])]
            0 <= s < k && opens_token(es[s]) ==> tokens_after(es, k).unwrap()[opened_count(es, s) as int]
                == (opened_kind(es[s]), run_text(es, s + 1, k as int)),
    decreases k,
{
    if k > 0 {
        let j = (k - 1) as nat;
        lemma_tokens_prefix(es, j, k);
        lemma_tokens_upto(es, j);
        let ts = tokens_after(es, j).unwrap();
        let nt = tokens_after(es, k).unwrap();
        let e = es[j as int];
        assert forall|s: int|
            #![trigger opens_token(es[s])]
            0 <= s < k && opens_token(es[s]) implies nt[opened_count(es, s) as int] == (
                opened_kind(es[s]),
                run_text(es, s + 1, k as int),
            ) by {
            if s == j {
                assert(run_text(es, s + 1, k as int) is None);
            } else {
                lemma_opened_gap(es, s, j as int);
                if opens_token(e) {
                    assert(nt == ts.push((opened_kind(e), None)));
                } else {
                    match e {
                        MdEventView::Text(t) => {
                            if none_open(es, s + 1, j as int) {
                                assert(opened_count(es, s) == ts.len() - 1);
                            }
                        },
                        _ => {
                            assert(nt == ts);
                        },
                    }
                }
            }
        }
    }
}

/// What the tokens of an event list are: one token per heading or
/// paragraph start, in order; the token opened by a start has the kind of
/// that start, and its content is the concatenation, in order, of every
/// text event after the start up to the next start (`None` when there is
/// none), for headings as for paragraphs.
pub proof fn lemma_token_contents(es: Seq<MdEventView>)
    requires
        spec_tokens(es) is Some,
    ensures
        spec_tokens(es).unwrap().len() == opened_count(es, es.len() as int),
        forall|s: int|
            #![trigger opens_token(es[s])]
            0 <= s < es.len() && opens_token(es[s]) ==> spec_tokens(es).unwrap()[opened_count(es, s) as int]
                == (opened_kind(es[s]), run_text(es, s + 1, es.len() as int)),
{
    lemma_tokens_upto(es, es.len());
}

/// Whether some text comes before the first heading or paragraph start.
pub fn text_before_token(events: &Vec<MdEvent>) -> (r: bool)
    ensures
        r == (spec_tokens(events_view(events@)) is None),
{
    let ghost es = events_view(events@);
    let n = events.len();
    let mut opened = false;
    let mut i: usize = 0;
    while i < n
        invariant
            n == events@.len(),
            es == events_view(events@),
            0 <= i <= n,
            tokens_after(es, i as nat) is Some,
            opened == (tokens_after(es, i as nat).unwrap().len() > 0),
        decreases n - i,
    {
        match &events[i] {
            MdEvent::StartHeading(_) => {
                opened = true;
            },
            MdEvent::StartParagraph => {
                opened = true;
            },
            MdEvent::Text(_) => {
                if !opened {
                    assert(tokens_after(es, (i + 1) as nat) is None);
                    assert(spec_tokens(es) is None) by {
                        if spec_tokens(es) is Some {
                            lemma_tokens_prefix(es, (i + 1) as nat, n as nat);
                        }
                    }
                    return true;
                }
            },
            _ => {},
        }
        i = i + 1;
    }
    false
}

/// Gathers the preview tokens from the parser's events (the Markdown part
/// of the editor's file opening): a heading or paragraph start opens a
/// token, and text is appended to the last token's content. Text must not
/// come before the first token.
pub fn tokens_from_events(events: &Vec<MdEvent>) -> (r: Vec<MarkdownToken>)
    requires
        spec_tokens(events_view(events@)) is Some,
    ensures
        spec_tokens(events_view(events@)) == Some(tokens_view(r@)),
{
    let ghost es = events_view(events@);
    let n = events.len();
    let mut nodes: Vec<MarkdownToken> = Vec::new();
    let mut i: usize = 0;
    proof {
        assert(tokens_view(nodes@) =~= Seq::<(MarkdownKind, Option<Seq<char>>)>::empty());
    }
    while i < n
        invariant
            n == events@.len(),
            es == events_view(events@),
            0 <= i <= n,
            tokens_after(es, n as nat) is Some,
            tokens_after(es, i as nat) == Some(tokens_view(nodes@)),
        decreases n - i,
    {
        proof {
            lemma_tokens_prefix(es, (i + 1) as nat, n as nat);
        }
        let ghost before = nodes@;
        match &events[i] {
            MdEvent::StartHeading(level) => {
                nodes.push(MarkdownToken { kind: MarkdownKind::Heading(*level), content: None });
                assert(tokens_view(nodes@) =~= tokens_view(before).push((MarkdownKind::Heading(*level), None)));
            },
            MdEvent::StartParagraph => {
                nodes.push(MarkdownToken { kind: MarkdownKind::Paragraph, content: None });
                assert(tokens_view(nodes@) =~= tokens_view(before).push((MarkdownKind::Paragraph, None)));
            },
            MdEvent::Text(content) => {
                let last_index = nodes.len() - 1;
                let kind = nodes[last_index].kind;
                let merged = match &nodes[last_index].content {
                    Some(c) => c.clone().concat(content.as_str()),
                    None => content.clone(),
                };
                let ghost merged_view = merged@;
                nodes.set(last_index, MarkdownToken { kind, content: Some(merged) });
                assert(tokens_view(nodes@) =~= tokens_view(before).update(
                    last_index as int,
                    (kind, Some(merged_view)),
                ));
            },
            _ => {},
        }
        i = i + 1;
    }
    nodes
}

/// The preview tokens of a Markdown text, or `None` when text comes before
/// the first heading or paragraph (as in a document that opens with a list).
pub fn preview_tokens(text: &str) -> (r: Option<Vec<MarkdownToken>>)
    ensures
        match r {
            Some(ts) => spec_tokens(markdown_event_stream(text@)) == Some(tokens_view(ts@)),
            None => spec_tokens(markdown_event_stream(text@)) is None,
        },
{
    let events = markdown_events(text);
    if text_before_token(&events) {
        None
    } else {
        Some(tokens_from_events(&events))
    }
}

/// The title of an editor window editing a file.
pub fn editor_title(app_name: &str, app_version: &str, file_name: &str) -> (r: String)
    ensures
        r@ == app_name@ + " - "@ + app_version@ + " - Editing "@ + file_name@,
{
    String::from_str(app_name).concat(" - ").concat(app_version).concat(" - Editing ").concat(file_name)
}

} // verus!
