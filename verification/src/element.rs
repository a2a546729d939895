//! Node descriptors: what a node is, what it carries and what stands under
//! it.

use vstd::prelude::*;
use crate::props::Props;
use crate::value::{Value, ValueView};

verus! {

/// What the host makes of a node: a primitive tag, or a render function
/// that it calls with the node's properties.
#[derive(Clone, Debug, PartialEq, Eq)]
pub enum Kind {
    Tag(String),
    /// The render function of the component of this name.
    Render(String),
}

pub ghost enum KindView {
    Tag(Seq<char>),
    Render(Seq<char>),
}

impl View for Kind {
    type V = KindView;

    open spec fn view(&self) -> KindView {
        match *self {
            Kind::Tag(t) => KindView::Tag(t@),
            Kind::Render(n) => KindView::Render(n@),
        }
    }
}

/// One child of a node: a primitive value that the host shows as it is, or
/// a node that was made before.
#[derive(Debug, PartialEq, Eq)]
pub enum Child {
    Value(Value),
    Node(HostNode),
}

impl Child {
    /// A text child.
    pub fn text(s: &str) -> (c: Child)
        ensures
            c matches Child::Value(v) && v@ == ValueView::Text(s@),
    {
        Child::Value(Value::text(s))
    }

    /// A number child.
    pub fn number(n: i64) -> (c: Child)
        ensures
            c == Child::Value(Value::Number(n)),
    {
        Child::Value(Value::Number(n))
    }
}

/// The content of a node: its kind, its properties and its children in
/// order.
pub ghost struct NodeView {
    pub kind: KindView,
    pub properties: Map<Seq<char>, ValueView>,
    pub children: Seq<Child>,
}

/// A node as it is handed to the host.
#[derive(Debug, PartialEq, Eq)]
pub struct HostNode {
    pub kind: Kind,
    pub properties: Props,
    pub children: Vec<Child>,
}

impl View for HostNode {
    type V = NodeView;

    open spec fn view(&self) -> NodeView {
        NodeView { kind: self.kind@, properties: self.properties@, children: self.children@ }
    }
}

/// A node in the making. It is used up when the node is made.
#[derive(Debug, PartialEq, Eq)]
pub struct Element {
    kind: Kind,
    properties: Props,
    children: Vec<Child>,
}

impl View for Element {
    type V = NodeView;

    closed spec fn view(&self) -> NodeView {
        NodeView { kind: self.kind@, properties: self.properties@, children: self.children@ }
    }
}

impl Element {
    pub fn new(kind: Kind, properties: Props, children: Vec<Child>) -> (e: Element)
        ensures
            e@ == (NodeView { kind: kind@, properties: properties@, children: children@ }),
    {
        Element { kind, properties, children }
    }

    /// Appends one child after those that are there.
    pub fn child(self, node: Child) -> (e: Element)
        ensures
            e@ == (NodeView { children: self@.children.push(node), ..self@ }),
    {
        let Element { kind, properties, mut children } = self;
        children.push(node);
        Element { kind, properties, children }
    }

    /// Makes the node: the one point at which a descriptor leaves for the
    /// host.
    pub fn create(self) -> (node: HostNode)
        ensures
            node@ == self@,
    {
        HostNode { kind: self.kind, properties: self.properties, children: self.children }
    }
}

/// What can be turned into an element.
pub trait IntoElement: Sized {
    /// The content of the element that `self` turns into.
    spec fn element(self) -> NodeView;

    fn into_element(self) -> (e: Element)
        ensures
            e@ == self.element(),
    ;

    /// The element of `self` with one more child.
    fn child(self, node: Child) -> (e: Element)
        ensures
            e@ == (NodeView { children: self.element().children.push(node), ..self.element() }),
    {
        let element = self.into_element();
        Element::child(element, node)
    }
}

} // verus!
