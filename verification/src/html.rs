//! The builder for nodes of primitive markup tags.

use vstd::prelude::*;
use crate::element::{Child, Element, HostNode, IntoElement, Kind, KindView, NodeView};
use crate::props::Props;
use crate::value::{Value, ValueView};

verus! {

/// The key under which the host looks for a click handler.
pub open spec fn click_key() -> Seq<char> {
    "onClick"@
}

/// The handler that a click on a node with these properties fires, if the
/// node has one.
pub open spec fn click_handler_of(properties: Map<Seq<char>, ValueView>) -> Option<u64> {
    if properties.contains_key(click_key()) {
        match properties[click_key()] {
            ValueView::Handler(h) if h <= u64::MAX => Some(h as u64),
            _ => None,
        }
    } else {
        None
    }
}

/// The handler that a click on `node` fires, if the node has one.
pub fn click_handler(node: &HostNode) -> (h: Option<u64>)
    ensures
        h == click_handler_of(node@.properties),
{
    match node.properties.get("onClick") {
        Some(Value::Handler(h)) => Some(h),
        _ => None,
    }
}

/// A click reaches the handler that was attached last, and no other: what
/// else is set on the builder, under other keys, does not change that.
pub proof fn lemma_click_fires_attached_handler(
    properties: Map<Seq<char>, ValueView>,
    handler: u64,
    key: Seq<char>,
    value: ValueView,
)
    ensures
        click_handler_of(properties.insert(click_key(), ValueView::Handler(handler as nat)))
            == Some(handler),
        key != click_key() ==> click_handler_of(properties.insert(key, value))
            == click_handler_of(properties),
{
}

/// A markup tag and the properties set on it so far.
#[derive(Debug, PartialEq, Eq)]
pub struct Html {
    tag: String,
    properties: Props,
}

impl Html {
    pub closed spec fn tag(&self) -> Seq<char> {
        self.tag@
    }

    pub closed spec fn properties(&self) -> Map<Seq<char>, ValueView> {
        self.properties@
    }

    /// A builder for `tag` with no property.
    pub fn new(tag: &str) -> (h: Html)
        ensures
            h.tag() == tag@,
            h.properties() == Map::<Seq<char>, ValueView>::empty(),
    {
        Html { tag: tag.to_owned(), properties: Props::new() }
    }

    /// Sets one property, replacing what stood under `key`.
    pub fn property(self, key: &str, value: &Value) -> (h: Html)
        ensures
            h.tag() == self.tag(),
            h.properties() == self.properties().insert(key@, value@),
    {
        let Html { tag, properties } = self;
        Html { tag, properties: properties.set(key.to_owned(), value.duplicate()) }
    }

    /// Stores the callback registered under `handler` as the click handler.
    pub fn on_click(self, handler: u64) -> (h: Html)
        ensures
            h.tag() == self.tag(),
            h.properties() == self.properties().insert(
                click_key(),
                ValueView::Handler(handler as nat),
            ),
    {
        let value = Value::Handler(handler);
        self.property("onClick", &value)
    }

    /// The element of this tag with these properties and no child.
    pub fn to_element(self) -> (e: Element)
        ensures
            e@ == self.element(),
    {
        Element::new(Kind::Tag(self.tag), self.properties, Vec::new())
    }
}

impl IntoElement for Html {
    open spec fn element(self) -> NodeView {
        NodeView {
            kind: KindView::Tag(self.tag()),
            properties: self.properties(),
            children: Seq::<Child>::empty(),
        }
    }

    fn into_element(self) -> (e: Element) {
        self.to_element()
    }
}

impl IntoElement for Element {
    open spec fn element(self) -> NodeView {
        self@
    }

    fn into_element(self) -> (e: Element) {
        self
    }
}

} // verus!
