//! The document model of a rendered buffer: elements built from a parsed
//! HTML fragment, with the text a screen reader is given for them.

use vstd::prelude::*;
use crate::utils::cryptography::hashing::{hash_str, spec_hash_str};
use crate::utils::links::{parse_url, url_parse};
use crate::utils::text::{join_space, push_joined, text_eq};
use crate::subsystems::events::{random_safe_id, url_safe_char};

verus! {

/// A node of a parsed HTML fragment, with the parts the document model
/// reads: text, an element with its attributes and children, or a comment.
#[derive(Debug)]
pub enum HtmlNode {
    Text(String),
    Element {
        name: String,
        id: Option<String>,
        classes: Vec<String>,
        attributes: Vec<(String, Option<String>)>,
        children: Vec<HtmlNode>,
    },
    Comment(String),
}

/// An element of a document: its tag name (`TEXT` for text, `INVALID` for
/// what cannot be shown), its attributes, its children and, for text, the
/// text itself.
#[derive(Debug)]
pub struct ElWrapper {
    pub name: String,
    pub attributes: Vec<(String, Option<String>)>,
    pub children: Vec<ElWrapper>,
    pub display_text: String,
}

/// An image asset.
pub enum Image {
    Svg(Vec<u8>),
    Other(Vec<u8>),
}

/// An attribute list, as text.
pub type AttrsView = Seq<(Seq<char>, Option<Seq<char>>)>;

/// The text of an optional string.
pub open spec fn opt_view(o: Option<String>) -> Option<Seq<char>> {
    match o {
        Some(s) => Some(s@),
        None => None,
    }
}

/// An attribute list as text.
pub open spec fn attrs_view(a: Seq<(String, Option<String>)>) -> AttrsView {
    a.map_values(|p: (String, Option<String>)| (p.0@, opt_view(p.1)))
}

/// The value of the first attribute named `key`.
pub open spec fn attr_lookup(a: AttrsView, key: Seq<char>) -> Option<Option<Seq<char>>>
    decreases a.len(),
{
    if a.len() == 0 {
        None
    } else if a[0].0 == key {
        Some(a[0].1)
    } else {
        attr_lookup(a.drop_first(), key)
    }
}

/// The attribute list with the first attribute named `key` set to `v`, or
/// with the attribute added at the end when there is none.
pub open spec fn attr_insert(a: AttrsView, key: Seq<char>, v: Option<Seq<char>>) -> AttrsView
    decreases a.len(),
{
    if a.len() == 0 {
        seq![(key, v)]
    } else if a[0].0 == key {
        a.update(0, (key, v))
    } else {
        seq![a[0]] + attr_insert(a.drop_first(), key, v)
    }
}

/// The text of the URL under which an image of a workspace is cached:
/// `noot://<workspace>/assets/<hash of the source>`.
pub open spec fn asset_url_text(workspace: Seq<char>, src: Seq<char>) -> Seq<char> {
    "noot://"@ + workspace + "/assets/"@ + spec_hash_str(src)
}

/// An image's attributes name a source, and its cache URL parses.
pub open spec fn img_ok(a: AttrsView, workspace: Seq<char>) -> bool {
    &&& attr_lookup(a, "src"@) matches Some(Some(src))
    &&& url_parse(asset_url_text(workspace, attr_lookup(a, "src"@).unwrap().unwrap())) is Some
}

/// The attributes of an element built from a node: an image gains a
/// `cached-src` attribute holding its cache URL.
pub open spec fn rewritten_attrs(name: Seq<char>, a: AttrsView, workspace: Seq<char>) -> AttrsView {
    if name == "img"@ {
        attr_insert(
            a,
            "cached-src"@,
            Some(
                url_parse(asset_url_text(workspace, attr_lookup(a, "src"@).unwrap().unwrap())).unwrap().0,
            ),
        )
    } else {
        a
    }
}

/// The nodes `ElWrapper::new` accepts: every image names a source whose
/// cache URL parses.
pub open spec fn buildable(n: HtmlNode, workspace: Seq<char>) -> bool
    decreases n,
{
    match n {
        HtmlNode::Element { name, attributes, children, .. } => {
            &&& name@ == "img"@ ==> img_ok(attrs_view(attributes@), workspace)
            &&& forall|i: int| 0 <= i < children@.len() ==> buildable(#[trigger] children@[i], workspace)
        },
        _ => true,
    }
}

/// `el` is the element built from node `n` for a workspace: text becomes a
/// `TEXT` element holding it, an element keeps its name and children (built
/// in turn) and its attributes (rewritten for images), a comment becomes an
/// `INVALID` element.
pub open spec fn built_from(el: ElWrapper, n: HtmlNode, workspace: Seq<char>) -> bool
    decreases n,
{
    match n {
        HtmlNode::Text(t) => {
            &&& el.name@ == "TEXT"@
            &&& el.attributes@.len() == 0
            &&& el.children@.len() == 0
            &&& el.display_text@ == t@
        },
        HtmlNode::Element { name, attributes, children, .. } => {
            &&& el.name@ == name@
            &&& attrs_view(el.attributes@) == rewritten_attrs(name@, attrs_view(attributes@), workspace)
            &&& el.children@.len() == children@.len()
            &&& forall|i: int|
                0 <= i < children@.len() ==> built_from(
                    #[trigger] el.children@[i],
                    children@[i],
                    workspace,
                )
            &&& el.display_text@.len() == 0
        },
        HtmlNode::Comment(_) => {
            &&& el.name@ == "INVALID"@
            &&& el.attributes@.len() == 0
            &&& el.children@.len() == 0
            &&& el.display_text@.len() == 0
        },
    }
}

fn clone_opt(o: &Option<String>) -> (r: Option<String>)
    ensures
        opt_view(r) == opt_view(*o),
{
    match o {
        Some(s) => Some(s.clone()),
        None => None,
    }
}

fn clone_attributes(a: &Vec<(String, Option<String>)>) -> (r: Vec<(String, Option<String>)>)
    ensures
        attrs_view(r@) == attrs_view(a@),
{
    let mut out: Vec<(String, Option<String>)> = Vec::new();
    let n = a.len();
    for i in 0..n
        invariant
            n == a@.len(),
            out@.len() == i,
            forall|j: int| 0 <= j < i ==> attrs_view(out@)[j] == #[trigger] attrs_view(a@)[j],
    {
        let (k, v) = &a[i];
        out.push((k.clone(), clone_opt(v)));
    }
    assert(attrs_view(out@) =~= attrs_view(a@));
    out
}

proof fn lemma_lookup_skip(a: AttrsView, key: Seq<char>, i: int)
    requires
        0 <= i <= a.len(),
        forall|j: int| 0 <= j < i ==> a[j].0 != key,
    ensures
        attr_lookup(a, key) == attr_lookup(a.skip(i), key),
    decreases i,
{
    if i > 0 {
        assert(a.skip(i - 1).drop_first() =~= a.skip(i));
        assert(a.skip(i - 1)[0] == a[i - 1]);
        lemma_lookup_skip(a, key, i - 1);
    } else {
        assert(a.skip(0) =~= a);
    }
}

/// The value of the first attribute named `key`.
pub fn lookup_attribute(a: &Vec<(String, Option<String>)>, key: &str) -> (r: Option<Option<String>>)
    ensures
        match r {
            Some(v) => attr_lookup(attrs_view(a@), key@) == Some(opt_view(v)),
            None => attr_lookup(attrs_view(a@), key@) is None,
        },
{
    let n = a.len();
    let ghost av = attrs_view(a@);
    for i in 0..n
        invariant
            n == a@.len(),
            av == attrs_view(a@),
            forall|j: int| 0 <= j < i ==> av[j].0 != key@,
    {
        if text_eq(a[i].0.as_str(), key) {
            proof {
                lemma_lookup_skip(av, key@, i as int);
            }
            return Some(clone_opt(&a[i].1));
        }
    }
    proof {
        lemma_lookup_skip(av, key@, n as int);
    }
    None
}

proof fn lemma_insert_skip(a: AttrsView, key: Seq<char>, v: Option<Seq<char>>, i: int)
    requires
        0 <= i <= a.len(),
        forall|j: int| 0 <= j < i ==> a[j].0 != key,
    ensures
        attr_insert(a, key, v) == a.take(i) + attr_insert(a.skip(i), key, v),
    decreases i,
{
    if i > 0 {
        assert(a.skip(i - 1).drop_first() =~= a.skip(i));
        lemma_insert_skip(a, key, v, i - 1);
        assert(a.take(i - 1) + seq![a[i - 1]] =~= a.take(i));
    } else {
        assert(a.skip(0) =~= a);
    }
}

fn insert_attribute(a: &mut Vec<(String, Option<String>)>, key: String, v: Option<String>)
    ensures
        attrs_view(final(a)@) == attr_insert(attrs_view(old(a)@), key@, opt_view(v)),
{
    let n = a.len();
    let ghost av = attrs_view(a@);
    for i in 0..n
        invariant
            n == a@.len(),
            av == attrs_view(a@),
            a@ == old(a)@,
            forall|j: int| 0 <= j < i ==> av[j].0 != key@,
    {
        if text_eq(a[i].0.as_str(), key.as_str()) {
            proof {
                lemma_insert_skip(av, key@, opt_view(v), i as int);
            }
            let ghost kv = key@;
            let ghost ov = opt_view(v);
            assert(av.skip(i as int)[0].0 == kv);
            assert(attr_insert(av.skip(i as int), kv, ov) == av.skip(i as int).update(0, (kv, ov)));
            a.set(i, (key, v));
            assert(attrs_view(a@) =~= av.take(i as int) + av.skip(i as int).update(0, (kv, ov)));
            return;
        }
    }
    proof {
        lemma_insert_skip(av, key@, opt_view(v), n as int);
    }
    a.push((key, v));
    assert(attrs_view(a@) =~= av.take(n as int) + attr_insert(av.skip(n as int), key@, opt_view(v)));
}

fn cache_url_text(workspace: &str, src: &str) -> (r: String)
    ensures
        r@ == asset_url_text(workspace@, src@),
{
    let hash = hash_str(src);
    String::from_str("noot://").concat(workspace).concat("/assets/").concat(hash.as_str())
}

impl ElWrapper {
    /// Builds the element for a node of a parsed fragment (see
    /// `built_from`); an image gains a `cached-src` attribute with the URL
    /// `noot://<workspace>/assets/<hash of its source>`.
    pub fn new(el: HtmlNode, workspace: &str) -> (r: ElWrapper)
        requires
            buildable(el, workspace@),
        ensures
            built_from(r, el, workspace@),
    {
        Self::from_node(&el, workspace)
    }

    fn from_node(el: &HtmlNode, workspace: &str) -> (r: ElWrapper)
        requires
            buildable(*el, workspace@),
        ensures
            built_from(r, *el, workspace@),
        decreases el,
    {
        match el {
            HtmlNode::Text(content) => ElWrapper {
                name: String::from_str("TEXT"),
                attributes: Vec::new(),
                children: Vec::new(),
                display_text: content.clone(),
            },
            HtmlNode::Element { name, attributes, children, .. } => {
                let mut kids: Vec<ElWrapper> = Vec::new();
                let n = children.len();
                for i in 0..n
                    invariant
                        n == children@.len(),
                        *el is Element,
                        el->children == *children,
                        kids@.len() == i,
                        forall|j: int| 0 <= j < children@.len() ==> buildable(#[trigger] children@[j], workspace@),
                        forall|j: int| 0 <= j < i ==> built_from(#[trigger] kids@[j], children@[j], workspace@),
                {
                    assert(buildable(children@[i as int], workspace@));
                    assert(decreases_to!(*el => el->children));
                    assert(decreases_to!(el->children => el->children@));
                    assert(decreases_to!(el->children@ => el->children@[i as int]));
                    let kid = Self::from_node(&children[i], workspace);
                    kids.push(kid);
                }
                let mut attrs = clone_attributes(attributes);
                if text_eq(name.as_str(), "img") {
                    match lookup_attribute(&attrs, "src") {
                        Some(Some(src)) => {
                            let text = cache_url_text(workspace, src.as_str());
                            match parse_url(text.as_str()) {
                                Some(url) => {
                                    insert_attribute(&mut attrs, String::from_str("cached-src"), Some(url.serialization));
                                },
                                None => {
                                    assert(false);
                                },
                            }
                        },
                        _ => {
                            assert(false);
                        },
                    }
                }
                ElWrapper { name: name.clone(), attributes: attrs, children: kids, display_text: String::new() }
            },
            HtmlNode::Comment(_) => ElWrapper {
                name: String::from_str("INVALID"),
                attributes: Vec::new(),
                children: Vec::new(),
                display_text: String::new(),
            },
        }
    }
}


/// Whether `ElWrapper::new` accepts a node (see `buildable`).
pub fn can_build(el: &HtmlNode, workspace: &str) -> (r: bool)
    ensures
        r == buildable(*el, workspace@),
    decreases el,
{
    match el {
        HtmlNode::Element { name, attributes, children, .. } => {
            if text_eq(name.as_str(), "img") {
                match lookup_attribute(attributes, "src") {
                    Some(Some(src)) => {
                        let text = cache_url_text(workspace, src.as_str());
                        if parse_url(text.as_str()).is_none() {
                            return false;
                        }
                    },
                    _ => {
                        return false;
                    },
                }
            }
            let n = children.len();
            for i in 0..n
                invariant
                    n == children@.len(),
                    *el is Element,
                    el->children == *children,
                    forall|j: int| 0 <= j < i ==> buildable(#[trigger] children@[j], workspace@),
            {
                assert(decreases_to!(*el => el->children));
                assert(decreases_to!(el->children => el->children@));
                assert(decreases_to!(el->children@ => el->children@[i as int]));
                if !can_build(&children[i], workspace) {
                    return false;
                }
            }
            true
        },
        _ => true,
    }
}

impl ElWrapper {
    /// Builds the element for a node when `new` accepts it, and `None` when
    /// an image lacks a source or its cache URL does not parse.
    pub fn try_new(el: HtmlNode, workspace: &str) -> (r: Option<ElWrapper>)
        ensures
            match r {
                Some(w) => buildable(el, workspace@) && built_from(w, el, workspace@),
                None => !buildable(el, workspace@),
            },
    {
        if can_build(&el, workspace) {
            Some(Self::new(el, workspace))
        } else {
            None
        }
    }
}

/// The nodes of a fragment that become elements: all but comments.
pub open spec fn shown_nodes(nodes: Seq<HtmlNode>) -> Seq<HtmlNode> {
    nodes.filter(|n: HtmlNode| !(n is Comment))
}

/// Builds the elements of a document from the top-level nodes of a parsed
/// fragment: comments are dropped, every other node is built in turn.
pub fn build_document(nodes: Vec<HtmlNode>, workspace: &str) -> (r: Vec<ElWrapper>)
    requires
        forall|i: int| 0 <= i < nodes@.len() ==> buildable(#[trigger] nodes@[i], workspace@),
    ensures
        r@.len() == shown_nodes(nodes@).len(),
        forall|i: int|
            0 <= i < r@.len() ==> built_from(#[trigger] r@[i], shown_nodes(nodes@)[i], workspace@),
{
    let mut els: Vec<ElWrapper> = Vec::new();
    let n = nodes.len();
    for i in 0..n
        invariant
            n == nodes@.len(),
            forall|j: int| 0 <= j < nodes@.len() ==> buildable(#[trigger] nodes@[j], workspace@),
            els@.len() == shown_nodes(nodes@.take(i as int)).len(),
            forall|j: int|
                0 <= j < els@.len() ==> built_from(
                    #[trigger] els@[j],
                    shown_nodes(nodes@.take(i as int))[j],
                    workspace@,
                ),
    {
        proof {
            assert(nodes@.take(i + 1).drop_last() =~= nodes@.take(i as int));
            reveal_with_fuel(Seq::filter, 1);
        }
        match &nodes[i] {
            HtmlNode::Comment(_) => {},
            _ => {
                assert(buildable(nodes@[i as int], workspace@));
                els.push(ElWrapper::from_node(&nodes[i], workspace));
            },
        }
    }
    assert(nodes@.take(n as int) =~= nodes@);
    els
}

/// The text that HTML entity decoding (`html_escape::decode_html_entities`)
/// makes of a text.
pub uninterp spec fn html_entities_decoded(s: Seq<char>) -> Seq<char>;

/// Trusted: `html_escape::decode_html_entities`.
#[verifier::external_body]
fn decode_entities(s: &str) -> (r: String)
    ensures
        r@ == html_entities_decoded(s@),
{
    html_escape::decode_html_entities(s).into_owned()
}

/// Text with every tab replaced by a space.
pub open spec fn tabs_to_spaces(s: Seq<char>) -> Seq<char> {
    s.map_values(|c: char| if c == '\t' { ' ' } else { c })
}

/// The text shown for raw HTML text: entities decoded, tabs made spaces.
pub open spec fn unescaped(s: Seq<char>) -> Seq<char> {
    tabs_to_spaces(html_entities_decoded(s))
}

/// Decodes HTML entities and replaces tabs by spaces.
pub fn unescape_html_text(src: &str) -> (r: String)
    ensures
        r@ == unescaped(src@),
{
    let decoded = decode_entities(src);
    let chars = crate::utils::text::chars_of(decoded.as_str());
    let mut out: Vec<char> = Vec::new();
    let n = chars.len();
    for i in 0..n
        invariant
            n == chars@.len(),
            chars@ == html_entities_decoded(src@),
            out@ == tabs_to_spaces(chars@.take(i as int)),
    {
        let c = chars[i];
        out.push(if c == '\t' { ' ' } else { c });
        assert(out@ =~= tabs_to_spaces(chars@.take(i + 1)));
    }
    assert(chars@.take(n as int) =~= chars@);
    crate::utils::text::string_from_chars(out.as_slice())
}

/// The text of a list of elements: their texts unescaped and joined with
/// spaces.
pub open spec fn spec_greedy_text(els: Seq<ElWrapper>) -> Seq<char> {
    join_space(els.map_values(|e: ElWrapper| unescaped(e.display_text@)))
}

/// The text of a list of elements: their texts unescaped and joined with
/// spaces.
pub fn greedy_text(elements: &[ElWrapper]) -> (r: String)
    ensures
        r@ == spec_greedy_text(elements@),
{
    let mut out = String::new();
    let n = elements.len();
    let ghost parts = elements@.map_values(|e: ElWrapper| unescaped(e.display_text@));
    for i in 0..n
        invariant
            n == elements@.len(),
            parts == elements@.map_values(|e: ElWrapper| unescaped(e.display_text@)),
            out@ == join_space(parts.take(i as int)),
    {
        let t = unescape_html_text(elements[i].display_text.as_str());
        push_joined(&mut out, i, t.as_str());
        assert(parts.take(i + 1).drop_last() =~= parts.take(i as int));
    }
    assert(parts.take(n as int) =~= parts);
    out
}


/// The text of the fixed message for tables.
pub open spec fn table_text() -> Seq<char> {
    "Table containing content which is not supported for screen readers"@
}

/// The text of the fixed message for images.
pub open spec fn image_text() -> Seq<char> {
    "Image not found"@
}

/// A heading below the first level.
pub open spec fn minor_heading(n: Seq<char>) -> bool {
    n == "h2"@ || n == "h3"@ || n == "h4"@ || n == "h5"@
}

/// The text a screen reader is given for an element (the text part of
/// `ElWrapper::view`): text is unescaped; a rule says nothing; a first-level
/// heading reads the section text when given, else its children's text;
/// paragraphs, divisions, links whose first child is an element and
/// unstyled table cells read their children's texts in turn; tables and
/// images read fixed messages; every other element reads its children's
/// text.
pub open spec fn spec_view_text(el: ElWrapper, section_text: Option<Seq<char>>) -> Seq<char>
    decreases el, 1nat,
{
    let n = el.name@;
    if n == "TEXT"@ {
        unescaped(el.display_text@)
    } else if n == "hr"@ {
        Seq::empty()
    } else if n == "h1"@ {
        match section_text {
            Some(t) => t,
            None => spec_greedy_text(el.children@),
        }
    } else if minor_heading(n) {
        spec_greedy_text(el.children@)
    } else if n == "p"@ || n == "div"@ {
        children_view_texts(el.children@)
    } else if n == "a"@ {
        if el.children@.len() > 0 && el.children@[0].name@ != "TEXT"@ {
            children_view_texts(el.children@)
        } else {
            spec_greedy_text(el.children@)
        }
    } else if n == "table"@ {
        table_text()
    } else if n == "th"@ || n == "td"@ {
        if attr_lookup(attrs_view(el.attributes@), "style"@) is Some {
            spec_greedy_text(el.children@)
        } else {
            children_view_texts(el.children@)
        }
    } else if n == "img"@ {
        image_text()
    } else {
        spec_greedy_text(el.children@)
    }
}

/// The section text changes only what a first-level heading reads: a
/// first-level heading reads the section text when given and its
/// children's text otherwise; every other element reads the same with or
/// without it.
pub proof fn lemma_section_text_only_for_h1(el: ElWrapper, section: Seq<char>)
    ensures
        el.name@ == "h1"@ ==> spec_view_text(el, Some(section)) == section,
        el.name@ == "h1"@ ==> spec_view_text(el, None) == spec_greedy_text(el.children@),
        el.name@ != "h1"@ ==> spec_view_text(el, Some(section)) == spec_view_text(el, None),
{
    reveal_strlit("h1");
    reveal_strlit("TEXT");
    reveal_strlit("hr");
    assert("h1"@ != "TEXT"@) by {
        assert("h1"@.len() != "TEXT"@.len());
    }
    assert("h1"@ != "hr"@) by {
        assert("h1"@[1] != "hr"@[1]);
    }
}

/// A division reads like a paragraph with the same children, whatever the
/// section text: its children's texts, each read without a section text,
/// joined with single spaces. With one child it reads that child's text;
/// with two, the first child's text, a space and the second's.
pub proof fn lemma_division_reads_its_children(d: ElWrapper, p: ElWrapper, section: Option<Seq<char>>)
    requires
        d.name@ == "div"@,
        p.name@ == "p"@,
        d.children@ == p.children@,
    ensures
        spec_view_text(d, section) == spec_view_text(p, None),
        d.children@.len() == 0 ==> spec_view_text(d, section) == Seq::<char>::empty(),
        d.children@.len() == 1 ==> spec_view_text(d, section) == spec_view_text(d.children@[0], None),
        d.children@.len() == 2 ==> spec_view_text(d, section) == spec_view_text(d.children@[0], None)
            + seq![' '] + spec_view_text(d.children@[1], None),
{
    reveal_strlit("div");
    reveal_strlit("p");
    reveal_strlit("TEXT");
    reveal_strlit("hr");
    reveal_strlit("h1");
    reveal_strlit("h2");
    reveal_strlit("h3");
    reveal_strlit("h4");
    reveal_strlit("h5");
    assert(d.name@.len() == 3 && p.name@.len() == 1);
    assert(!minor_heading(d.name@) && !minor_heading(p.name@));
    assert(d.name@ != "TEXT"@ && d.name@ != "hr"@ && d.name@ != "h1"@);
    assert(p.name@ != "TEXT"@ && p.name@ != "hr"@ && p.name@ != "h1"@);
    let c = d.children@;
    if c.len() == 2 {
        assert(c.subrange(0, 1).len() == 1);
        assert(c.subrange(0, 1)[0] == c[0]);
        assert(children_view_texts(c.subrange(0, 1)) == spec_view_text(c[0], None));
        assert(children_view_texts(c) == children_view_texts(c.subrange(0, 1)) + seq![' '] + spec_view_text(c[1], None));
    }
}

/// The texts of a list of elements, each read without a section text,
/// joined with spaces.
pub open spec fn children_view_texts(els: Seq<ElWrapper>) -> Seq<char>
    decreases els, 0nat,
{
    if els.len() == 0 {
        Seq::empty()
    } else if els.len() == 1 {
        spec_view_text(els[0], None)
    } else {
        children_view_texts(els.subrange(0, els.len() - 1)) + seq![' '] + spec_view_text(
            els[els.len() - 1],
            None,
        )
    }
}

/// The elements whose text can be read: a link needs a first child, and
/// the children whose texts are read must be readable in turn.
pub open spec fn text_defined(el: ElWrapper) -> bool
    decreases el,
{
    let n = el.name@;
    if n == "p"@ || n == "div"@ {
        forall|i: int| 0 <= i < el.children@.len() ==> text_defined(#[trigger] el.children@[i])
    } else if n == "a"@ {
        &&& el.children@.len() > 0
        &&& el.children@[0].name@ != "TEXT"@ ==> forall|i: int|
            0 <= i < el.children@.len() ==> text_defined(#[trigger] el.children@[i])
    } else if (n == "th"@ || n == "td"@) && attr_lookup(attrs_view(el.attributes@), "style"@) is None {
        forall|i: int| 0 <= i < el.children@.len() ==> text_defined(#[trigger] el.children@[i])
    } else {
        true
    }
}

fn children_text(children: &Vec<ElWrapper>) -> (r: String)
    requires
        forall|i: int| 0 <= i < children@.len() ==> text_defined(#[trigger] children@[i]),
    ensures
        r@ == children_view_texts(children@),
    decreases children, 0nat,
{
    let mut out = String::new();
    let n = children.len();
    for i in 0..n
        invariant
            n == children@.len(),
            forall|j: int| 0 <= j < children@.len() ==> text_defined(#[trigger] children@[j]),
            out@ == children_view_texts(children@.subrange(0, i as int)),
    {
        assert(decreases_to!(*children => children@));
        assert(decreases_to!(children@ => children@[i as int]));
        assert(text_defined(children@[i as int]));
        let t = children[i].view_text(None);
        push_joined(&mut out, i, t.as_str());
        assert(children@.subrange(0, i + 1).subrange(0, i as int) =~= children@.subrange(0, i as int));
    }
    assert(children@.subrange(0, n as int) =~= children@);
    out
}

impl ElWrapper {
    /// The text a screen reader is given for the element (see
    /// `spec_view_text`); `section_text` is the text of the section a
    /// first-level heading opens.
    pub fn view_text(&self, section_text: Option<String>) -> (r: String)
        requires
            text_defined(*self),
        ensures
            r@ == spec_view_text(*self, opt_view(section_text)),
        decreases *self, 1nat,
    {
        let name = self.name.as_str();
        if text_eq(name, "TEXT") {
            unescape_html_text(self.display_text.as_str())
        } else if text_eq(name, "hr") {
            String::new()
        } else if text_eq(name, "h1") {
            match section_text {
                Some(t) => t,
                None => greedy_text(self.children.as_slice()),
            }
        } else if text_eq(name, "h2") || text_eq(name, "h3") || text_eq(name, "h4") || text_eq(name, "h5") {
            greedy_text(self.children.as_slice())
        } else if text_eq(name, "p") || text_eq(name, "div") {
            assert(decreases_to!(*self => self.children));
            children_text(&self.children)
        } else if text_eq(name, "a") {
            if !text_eq(self.children[0].name.as_str(), "TEXT") {
                assert(decreases_to!(*self => self.children));
                children_text(&self.children)
            } else {
                greedy_text(self.children.as_slice())
            }
        } else if text_eq(name, "table") {
            String::from_str("Table containing content which is not supported for screen readers")
        } else if text_eq(name, "th") || text_eq(name, "td") {
            if lookup_attribute(&self.attributes, "style").is_some() {
                greedy_text(self.children.as_slice())
            } else {
                assert(decreases_to!(*self => self.children));
                children_text(&self.children)
            }
        } else if text_eq(name, "img") {
            String::from_str("Image not found")
        } else {
            greedy_text(self.children.as_slice())
        }
    }
}


/// The image sources of an element: an image's own source; the sources in
/// the children of any other element.
pub open spec fn el_image_sources(el: ElWrapper) -> Seq<Seq<char>>
    decreases el, 1nat,
{
    if el.name@ == "img"@ {
        seq![attr_lookup(attrs_view(el.attributes@), "src"@).unwrap().unwrap()]
    } else {
        image_sources(el.children@)
    }
}

/// The image sources of a list of elements, in document order.
pub open spec fn image_sources(els: Seq<ElWrapper>) -> Seq<Seq<char>>
    decreases els, 0nat,
{
    if els.len() == 0 {
        Seq::empty()
    } else {
        image_sources(els.subrange(0, els.len() - 1)) + el_image_sources(els[els.len() - 1])
    }
}

/// Every image reached names a source.
pub open spec fn images_defined(el: ElWrapper) -> bool
    decreases el,
{
    if el.name@ == "img"@ {
        attr_lookup(attrs_view(el.attributes@), "src"@) matches Some(Some(_))
    } else {
        forall|i: int| 0 <= i < el.children@.len() ==> images_defined(#[trigger] el.children@[i])
    }
}

/// The texts of a list of strings.
pub open spec fn texts(v: Seq<String>) -> Seq<Seq<char>> {
    v.map_values(|s: String| s@)
}

fn append_strings(dst: &mut Vec<String>, src: Vec<String>)
    ensures
        texts(final(dst)@) == texts(old(dst)@) + texts(src@),
{
    let ghost start = texts(dst@);
    let n = src.len();
    for i in 0..n
        invariant
            n == src@.len(),
            texts(dst@) == start + texts(src@).take(i as int),
    {
        let ghost before = dst@;
        let item = src[i].clone();
        dst.push(item);
        assert(dst@ == before.push(item));
        assert(texts(dst@) =~= texts(before).push(item@));
        assert(texts(dst@) =~= start + texts(src@).take(i + 1));
    }
    assert(texts(src@).take(n as int) =~= texts(src@));
}

/// The sources of the images in a list of elements, in document order: an
/// image contributes its source and its children are not searched; other
/// elements are searched through their children.
pub fn find_image_sources(els: &Vec<ElWrapper>) -> (r: Vec<String>)
    requires
        forall|i: int| 0 <= i < els@.len() ==> images_defined(#[trigger] els@[i]),
    ensures
        texts(r@) == image_sources(els@),
    decreases els, 0nat,
{
    let mut out: Vec<String> = Vec::new();
    let n = els.len();
    for i in 0..n
        invariant
            n == els@.len(),
            forall|j: int| 0 <= j < els@.len() ==> images_defined(#[trigger] els@[j]),
            texts(out@) == image_sources(els@.subrange(0, i as int)),
    {
        assert(decreases_to!(*els => els@));
        assert(decreases_to!(els@ => els@[i as int]));
        assert(images_defined(els@[i as int]));
        let found = element_image_sources(&els[i]);
        append_strings(&mut out, found);
        assert(els@.subrange(0, i + 1).subrange(0, i as int) =~= els@.subrange(0, i as int));
    }
    assert(els@.subrange(0, n as int) =~= els@);
    out
}

fn element_image_sources(el: &ElWrapper) -> (r: Vec<String>)
    requires
        images_defined(*el),
    ensures
        texts(r@) == el_image_sources(*el),
    decreases *el, 1nat,
{
    if text_eq(el.name.as_str(), "img") {
        match lookup_attribute(&el.attributes, "src") {
            Some(Some(src)) => {
                let mut v: Vec<String> = Vec::new();
                v.push(src);
                assert(texts(v@) =~= el_image_sources(*el));
                v
            },
            _ => {
                assert(false);
                Vec::new()
            },
        }
    } else {
        assert(decreases_to!(*el => el.children));
        find_image_sources(&el.children)
    }
}


/// The HTML that pulldown-cmark renders from Markdown with the given option
/// bits.
pub uninterp spec fn markdown_html(content: Seq<char>, options: u32) -> Seq<char>;

/// Trusted: `pulldown_cmark::html::push_html` into an empty string, over
/// `Parser::new_ext` with the options whose bits are given.
#[verifier::external_body]
pub(crate) fn render_markdown(content: &str, options: u32) -> (r: String)
    ensures
        r@ == markdown_html(content@, options),
{
    let mut out = String::new();
    pulldown_cmark::html::push_html(
        &mut out,
        pulldown_cmark::Parser::new_ext(content, pulldown_cmark::Options::from_bits_truncate(options)),
    );
    out
}

/// The Markdown extensions a workspace buffer is rendered with, as
/// pulldown-cmark option bits: tables (bit 1), footnotes (2),
/// strikethrough (3), task lists (4), YAML metadata blocks (7), GFM (11),
/// definition lists (12), superscript (13), subscript (14) and wiki links
/// (15).
pub const BUFFER_MARKDOWN_OPTIONS: u32 = 63646;

/// Renders the Markdown of a workspace buffer as HTML (the first step of
/// `Buffer::from_md`).
pub fn markdown_to_html(content: &str) -> (r: String)
    ensures
        r@ == markdown_html(content@, BUFFER_MARKDOWN_OPTIONS),
{
    render_markdown(content, BUFFER_MARKDOWN_OPTIONS)
}

/// The font a buffer's text is shown in: the dyslexia-friendly primary font
/// when `appearance.font.dyslexic.enable` is set, else the primary font.
pub fn get_a11_font(dyslexic_enabled: bool, dyslexic_primary: String, primary: String) -> (r: String)
    ensures
        r == if dyslexic_enabled {
            dyslexic_primary
        } else {
            primary
        },
{
    if dyslexic_enabled {
        dyslexic_primary
    } else {
        primary
    }
}

/// A node of an HTML document as html_parser builds it.
#[verifier::external_type_specification]
#[verifier::external_body]
pub struct ExParsedNode(html_parser::Node);

/// Trusted: converts a node of html_parser into the library's node, field by
/// field (the attributes in the order their map is walked), its children in
/// turn.
#[verifier::external_body]
fn node_from_parser(node: &html_parser::Node) -> HtmlNode {
    match node {
        html_parser::Node::Text(t) => HtmlNode::Text(t.clone()),
        html_parser::Node::Element(e) => HtmlNode::Element {
            name: e.name.clone(),
            id: e.id.clone(),
            classes: e.classes.clone(),
            attributes: e.attributes.iter().map(|(k, v)| (k.clone(), v.clone())).collect(),
            children: e.children.iter().map(node_from_parser).collect(),
        },
        html_parser::Node::Comment(c) => HtmlNode::Comment(c.clone()),
    }
}

/// What a parsed HTML text is: a whole document (a single `html` root), a
/// fragment, or nothing.
#[derive(Debug, Clone, Copy, PartialEq, Eq, Structural)]
pub enum DomKind {
    Document,
    DocumentFragment,
    Empty,
}

/// Whether `html_parser`'s `Dom::parse` can give this outcome for a text:
/// `None` for a text that does not parse, else the kind of the tree and its
/// top-level nodes. Whether a text parses, the kind of its tree and the
/// shape of its nodes follow from the text; the order in which an
/// element's attributes are listed does not (they sit in a `HashMap`, whose
/// order is seeded anew in every process), so this names the outcomes a
/// text can have rather than a single one.
pub uninterp spec fn html_parse_outcome(content: Seq<char>, outcome: Option<(DomKind, Seq<HtmlNode>)>) -> bool;

/// A parse result as plain values.
pub open spec fn parse_view(r: Option<(DomKind, Vec<HtmlNode>)>) -> Option<(DomKind, Seq<HtmlNode>)> {
    match r {
        Some((k, ns)) => Some((k, ns@)),
        None => None,
    }
}

/// Trusted: `html_parser::Dom::parse`, giving the kind of the tree and its
/// top-level nodes, or `None` when the text does not parse: one of the
/// outcomes the text can have (see `html_parse_outcome`).
#[verifier::external_body]
pub(crate) fn parse_html(content: &str) -> (r: Option<(DomKind, Vec<HtmlNode>)>)
    ensures
        html_parse_outcome(content@, parse_view(r)),
{
    match html_parser::Dom::parse(content) {
        Ok(dom) => Some(
            (
                match dom.tree_type {
                    html_parser::DomVariant::Document => DomKind::Document,
                    html_parser::DomVariant::DocumentFragment => DomKind::DocumentFragment,
                    html_parser::DomVariant::Empty => DomKind::Empty,
                },
                dom.children.iter().map(node_from_parser).collect(),
            ),
        ),
        Err(_) => None,
    }
}

/// `doc` holds the elements built, for a workspace, from the nodes of a
/// parsed fragment that are shown (all but comments), in order.
pub open spec fn document_built_from(doc: Seq<ElWrapper>, nodes: Seq<HtmlNode>, workspace: Seq<char>) -> bool {
    &&& forall|i: int| 0 <= i < nodes.len() ==> buildable(#[trigger] nodes[i], workspace)
    &&& doc.len() == shown_nodes(nodes).len()
    &&& forall|i: int| 0 <= i < doc.len() ==> built_from(#[trigger] doc[i], shown_nodes(nodes)[i], workspace)
}

/// A document open in a workspace: a short random id, its name, the URL it
/// was read from, its elements and the text segments read aloud.
#[derive(Debug)]
pub struct Buffer {
    pub id: String,
    pub name: String,
    pub url: String,
    pub doc: Vec<ElWrapper>,
    pub tts_segments: Vec<String>,
}

fn all_buildable(nodes: &Vec<HtmlNode>, workspace: &str) -> (r: bool)
    ensures
        r == forall|i: int| 0 <= i < nodes@.len() ==> buildable(#[trigger] nodes@[i], workspace@),
{
    let n = nodes.len();
    for i in 0..n
        invariant
            n == nodes@.len(),
            forall|j: int| 0 <= j < i ==> buildable(#[trigger] nodes@[j], workspace@),
    {
        if !can_build(&nodes[i], workspace) {
            return false;
        }
    }
    true
}

/// `r` is what building a buffer named `name` for a workspace, from the
/// URL `url` and the HTML text `html`, gives: a buffer with a fresh
/// 5-character id, the name, the parsed URL, no text segments, and the
/// document built from the nodes of a parse of the text, all of which can
/// be built; or `None`, which comes only when the URL does not parse, the
/// text does not parse, or the parse holds a node that cannot be built.
pub open spec fn buffer_built(
    r: Option<Buffer>,
    name: String,
    workspace: Seq<char>,
    url: Seq<char>,
    html: Seq<char>,
) -> bool {
    match r {
        Some(b) => {
            &&& b.id@.len() == 5
            &&& forall|i: int| 0 <= i < 5 ==> url_safe_char(#[trigger] b.id@[i])
            &&& b.name == name
            &&& url_parse(url) matches Some(p) && b.url@ == p.0
            &&& exists|k: DomKind, nodes: Seq<HtmlNode>|
                #[trigger] html_parse_outcome(html, Some((k, nodes))) && document_built_from(
                    b.doc@,
                    nodes,
                    workspace,
                )
            &&& b.tts_segments@.len() == 0
        },
        None => {
            ||| url_parse(url) is None
            ||| html_parse_outcome(html, None)
            ||| exists|k: DomKind, nodes: Seq<HtmlNode>|
                #[trigger] html_parse_outcome(html, Some((k, nodes))) && !(forall|i: int|
                    0 <= i < nodes.len() ==> buildable(#[trigger] nodes[i], workspace))
        },
    }
}

impl Buffer {
    /// Builds a buffer from an HTML text: the text is parsed, its shown
    /// top-level nodes are built into the document for the workspace, the
    /// buffer gets a fresh 5-character id, and `url` is parsed. `None` when
    /// the text does not parse, an image cannot be built, or the URL does
    /// not parse.
    pub fn new(name: String, workspace: &str, url: &str, content: &str) -> (r: Option<Buffer>)
        ensures
            buffer_built(r, name, workspace@, url@, content@),
    {
        let (kind, nodes) = match parse_html(content) {
            Some(parsed) => parsed,
            None => {
                return None;
            },
        };
        let ghost parsed = nodes@;
        assert(html_parse_outcome(content@, Some((kind, parsed))));
        if !all_buildable(&nodes, workspace) {
            return None;
        }
        let doc = build_document(nodes, workspace);
        let id = random_safe_id(5);
        match parse_url(url) {
            Some(parts) => {
                let b = Buffer { id, name, url: parts.serialization, doc, tts_segments: Vec::new() };
                assert(document_built_from(b.doc@, parsed, workspace@));
                Some(b)
            },
            None => None,
        }
    }

    /// Builds a buffer from a Markdown text: the text is rendered to HTML
    /// with the buffer's Markdown extensions, then built as `new` builds it.
    pub fn from_md(name: String, workspace: &str, url: &str, content: &str) -> (r: Option<Buffer>)
        ensures
            buffer_built(r, name, workspace@, url@, markdown_html(content@, BUFFER_MARKDOWN_OPTIONS)),
    {
        let html = markdown_to_html(content);
        Self::new(name, workspace, url, html.as_str())
    }
}

} // verus!
