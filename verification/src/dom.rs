//! A document tree of plain values, and the HTML parser that produces it.

use crate::text::{chars_of, same};
use html5ever::rcdom::{NodeData, RcDom};
use html5ever::tendril::TendrilSink;
use vstd::prelude::*;

verus! {

/// An attribute of an element, by local name.
#[derive(Debug, PartialEq, Eq)]
pub struct Attribute {
    pub name: String,
    pub value: String,
}

/// What a node of the tree is.
#[derive(Debug, PartialEq, Eq)]
pub enum DomKind {
    Document,
    Doctype,
    Text { contents: String },
    Comment,
    /// An element, by local name, with its attributes in document order.
    Element { name: String, attrs: Vec<Attribute> },
    Instruction,
}

/// A node of a document tree with its children in document order.
#[derive(Debug, PartialEq, Eq)]
pub struct DomNode {
    pub kind: DomKind,
    pub children: Vec<DomNode>,
}

/// The node type of the parser's own tree.
#[verifier::external_type_specification]
#[verifier::external_body]
pub struct ExTreeNode(html5ever::rcdom::Node);

/// The mathematical value of a [`DomKind`]: an attribute is its name and
/// its value.
pub enum DomKindView {
    Document,
    Doctype,
    Text { contents: Seq<char> },
    Comment,
    Element { name: Seq<char>, attrs: Seq<(Seq<char>, Seq<char>)> },
    Instruction,
}

/// The mathematical value of a [`DomNode`].
pub struct DomView {
    pub kind: DomKindView,
    pub children: Seq<DomView>,
}

impl View for Attribute {
    type V = (Seq<char>, Seq<char>);

    open spec fn view(&self) -> (Seq<char>, Seq<char>) {
        (self.name@, self.value@)
    }
}

/// The names and values of a sequence of attributes.
pub open spec fn attr_views(v: Seq<Attribute>) -> Seq<(Seq<char>, Seq<char>)> {
    Seq::new(v.len(), |i: int| v[i]@)
}

impl View for DomKind {
    type V = DomKindView;

    open spec fn view(&self) -> DomKindView {
        match self {
            DomKind::Document => DomKindView::Document,
            DomKind::Doctype => DomKindView::Doctype,
            DomKind::Text { contents } => DomKindView::Text { contents: contents@ },
            DomKind::Comment => DomKindView::Comment,
            DomKind::Element { name, attrs } => DomKindView::Element {
                name: name@,
                attrs: attr_views(attrs@),
            },
            DomKind::Instruction => DomKindView::Instruction,
        }
    }
}

/// The mathematical value of a node.
pub open spec fn dom_view(n: DomNode) -> DomView
    decreases n,
{
    DomView {
        kind: n.kind@,
        children: Seq::new(
            n.children@.len(),
            |i: int|
                if 0 <= i < n.children@.len() {
                    dom_view(n.children@[i])
                } else {
                    DomView { kind: DomKindView::Document, children: Seq::empty() }
                },
        ),
    }
}

impl View for DomNode {
    type V = DomView;

    open spec fn view(&self) -> DomView {
        dom_view(*self)
    }
}

/// The values of a sequence of nodes.
pub open spec fn dom_views(v: Seq<DomNode>) -> Seq<DomView> {
    Seq::new(v.len(), |i: int| v[i]@)
}

/// The value of a node is the value of its kind with the values of its
/// children.
pub proof fn lemma_dom_view(n: DomNode)
    ensures
        n@.kind == n.kind@,
        n@.children == dom_views(n.children@),
{
    assert(dom_view(n).children =~= dom_views(n.children@));
}

/// The tree that the HTML parser builds from a document's text.
pub uninterp spec fn html_tree(html: Seq<char>) -> Option<DomView>;

/// Copies a node of the parser's tree (`html5ever::rcdom::Node`) and all
/// that is below it into a [`DomNode`]: each kind of node becomes the kind of
/// the same name, a text keeps its contents, an element its local name and
/// its attributes' local names and values. Nothing is claimed of the result.
#[verifier::external_body]
fn node_of(n: &html5ever::rcdom::Node) -> DomNode {
    let kind = match n.data {
        NodeData::Document => DomKind::Document,
        NodeData::Doctype { .. } => DomKind::Doctype,
        NodeData::Text { ref contents } => DomKind::Text { contents: contents.borrow().to_string() },
        NodeData::Comment { .. } => DomKind::Comment,
        NodeData::Element { ref name, ref attrs, .. } => DomKind::Element {
            name: name.local.to_string(),
            attrs: attrs.borrow().iter().map(|a| Attribute { name: a.name.local.to_string(), value: a.value.to_string() }).collect(),
        },
        NodeData::ProcessingInstruction { .. } => DomKind::Instruction,
    };
    DomNode { kind, children: n.children.borrow().iter().map(|c| node_of(c)).collect() }
}

/// `html5ever::parse_document` into an `RcDom`, fed the UTF-8 bytes of
/// `html`: the document node of the tree it builds, which depends on the
/// text alone; nothing where reading the bytes fails.
#[verifier::external_body]
pub(crate) fn parse_html(html: &str) -> (tree: Option<DomNode>)
    ensures
        match tree {
            Some(t) => html_tree(html@) == Some(t@),
            None => html_tree(html@) is None,
        },
{
    let sink = html5ever::parse_document(RcDom::default(), Default::default());
    match sink.from_utf8().read_from(&mut html.as_bytes()) {
        Ok(dom) => Some(node_of(&dom.document)),
        Err(_) => None,
    }
}

/// The child of `n` at index `i`, if it has one.
pub open spec fn child_at(n: DomView, i: int) -> Option<DomView> {
    if 0 <= i < n.children.len() {
        Some(n.children[i])
    } else {
        None
    }
}

/// The node reached from `n` by the child indices `a`, `b`.
pub open spec fn at2(n: DomView, a: int, b: int) -> Option<DomView> {
    match child_at(n, a) {
        Some(c) => child_at(c, b),
        None => None,
    }
}

/// The node reached from `n` by the child indices `a`, `b`, `c`.
pub open spec fn at3(n: DomView, a: int, b: int, c: int) -> Option<DomView> {
    match at2(n, a, b) {
        Some(d) => child_at(d, c),
        None => None,
    }
}

/// The node reached from `n` by the child indices `a`, `b`, `c`, `d`.
pub open spec fn at4(n: DomView, a: int, b: int, c: int, d: int) -> Option<DomView> {
    match at3(n, a, b, c) {
        Some(e) => child_at(e, d),
        None => None,
    }
}

/// The contents of a text node.
pub open spec fn text_of(n: DomView) -> Option<Seq<char>> {
    match n.kind {
        DomKindView::Text { contents } => Some(contents),
        _ => None,
    }
}

/// The attributes of an element.
pub open spec fn attrs_of(n: DomView) -> Option<Seq<(Seq<char>, Seq<char>)>> {
    match n.kind {
        DomKindView::Element { attrs, .. } => Some(attrs),
        _ => None,
    }
}

/// Whether `n` is an element with the local name `name`.
pub open spec fn is_element(n: DomView, name: Seq<char>) -> bool {
    match n.kind {
        DomKindView::Element { name: own, .. } => own == name,
        _ => false,
    }
}

/// Whether one of `attrs` has the given name and value.
pub open spec fn has_attr(attrs: Seq<(Seq<char>, Seq<char>)>, name: Seq<char>, value: Seq<char>) -> bool {
    exists|i: int| 0 <= i < attrs.len() && #[trigger] attrs[i] == (name, value)
}

/// Whether `n` is an element that carries the given attribute value.
pub open spec fn has_mark(n: DomView, name: Seq<char>, value: Seq<char>) -> bool {
    match n.kind {
        DomKindView::Element { attrs, .. } => has_attr(attrs, name, value),
        _ => false,
    }
}

impl DomNode {
    /// The number of children.
    pub fn count(&self) -> (n: usize)
        ensures
            n == self@.children.len(),
    {
        proof {
            lemma_dom_view(*self);
        }
        self.children.len()
    }

    /// The child at index `i`.
    pub(crate) fn nth(&self, i: usize) -> (c: &DomNode)
        requires
            i < self@.children.len(),
        ensures
            c@ == self@.children[i as int],
    {
        proof {
            lemma_dom_view(*self);
        }
        &self.children[i]
    }

    /// The child at index `i`, if there is one.
    pub fn child(&self, i: usize) -> (r: Option<&DomNode>)
        ensures
            match r {
                Some(c) => child_at(self@, i as int) == Some(c@),
                None => child_at(self@, i as int) is None,
            },
    {
        if i < self.count() {
            Some(self.nth(i))
        } else {
            None
        }
    }

    /// The node reached by the child indices `a`, `b`.
    pub fn child2(&self, a: usize, b: usize) -> (r: Option<&DomNode>)
        ensures
            match r {
                Some(c) => at2(self@, a as int, b as int) == Some(c@),
                None => at2(self@, a as int, b as int) is None,
            },
    {
        match self.child(a) {
            Some(c) => c.child(b),
            None => None,
        }
    }

    /// The node reached by the child indices `a`, `b`, `c`.
    pub fn child3(&self, a: usize, b: usize, c: usize) -> (r: Option<&DomNode>)
        ensures
            match r {
                Some(d) => at3(self@, a as int, b as int, c as int) == Some(d@),
                None => at3(self@, a as int, b as int, c as int) is None,
            },
    {
        match self.child2(a, b) {
            Some(d) => d.child(c),
            None => None,
        }
    }

    /// The node reached by the child indices `a`, `b`, `c`, `d`.
    pub fn child4(&self, a: usize, b: usize, c: usize, d: usize) -> (r: Option<&DomNode>)
        ensures
            match r {
                Some(e) => at4(self@, a as int, b as int, c as int, d as int) == Some(e@),
                None => at4(self@, a as int, b as int, c as int, d as int) is None,
            },
    {
        match self.child3(a, b, c) {
            Some(e) => e.child(d),
            None => None,
        }
    }

    /// The characters of a text node.
    pub fn text(&self) -> (r: Option<Vec<char>>)
        ensures
            match r {
                Some(t) => text_of(self@) == Some(t@),
                None => text_of(self@) is None,
            },
    {
        proof {
            lemma_dom_view(*self);
        }
        match &self.kind {
            DomKind::Text { contents } => Some(chars_of(contents.as_str())),
            _ => None,
        }
    }

    /// The attributes of an element.
    pub fn attrs(&self) -> (r: Option<&Vec<Attribute>>)
        ensures
            match r {
                Some(a) => attrs_of(self@) == Some(attr_views(a@)),
                None => attrs_of(self@) is None,
            },
    {
        proof {
            lemma_dom_view(*self);
        }
        match &self.kind {
            DomKind::Element { attrs, .. } => Some(attrs),
            _ => None,
        }
    }

    /// Says whether this is an element with the local name `name`.
    pub fn is_named(&self, name: &str) -> (b: bool)
        ensures
            b == is_element(self@, name@),
    {
        proof {
            lemma_dom_view(*self);
        }
        match &self.kind {
            DomKind::Element { name: own, .. } => {
                let a = chars_of(own.as_str());
                let b = chars_of(name);
                same(&a, &b)
            },
            _ => false,
        }
    }

    /// Says whether this is an element that carries the given attribute
    /// value.
    pub fn is_marked(&self, name: &str, value: &str) -> (b: bool)
        ensures
            b == has_mark(self@, name@, value@),
    {
        match self.attrs() {
            Some(attrs) => any_attr(attrs, name, value),
            None => false,
        }
    }
}

/// Says whether one of `attrs` has the given name and value.
pub fn any_attr(attrs: &Vec<Attribute>, name: &str, value: &str) -> (b: bool)
    ensures
        b == has_attr(attr_views(attrs@), name@, value@),
{
    let want_name = chars_of(name);
    let want_value = chars_of(value);
    let mut i: usize = 0;
    while i < attrs.len()
        invariant
            i <= attrs.len(),
            want_name@ == name@,
            want_value@ == value@,
            forall|k: int| 0 <= k < i ==> #[trigger] attr_views(attrs@)[k] != (name@, value@),
        decreases attrs.len() - i,
    {
        let own_name = chars_of(attrs[i].name.as_str());
        let own_value = chars_of(attrs[i].value.as_str());
        if same(&own_name, &want_name) && same(&own_value, &want_value) {
            assert(attr_views(attrs@)[i as int] == (name@, value@));
            return true;
        }
        i += 1;
    }
    false
}

} // verus!
