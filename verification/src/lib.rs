//! A typed component layer over a declarative rendering host.
//!
//! Components and markup builders describe a tree of nodes as plain values;
//! the host keeps the state cells of each component instance and is asked to
//! mount what the library computes.

pub mod value;
pub mod props;
pub mod state;
pub mod element;
pub mod html;
pub mod component;
pub mod counter;

use vstd::prelude::*;
use crate::element::{HostNode, IntoElement};

verus! {

/// A request to the host: put `node` into the container of this name.
#[derive(Debug, PartialEq, Eq)]
pub struct Mount {
    pub node: HostNode,
    pub container: String,
}

/// Turns `element` into a node and asks for it to be mounted into
/// `container`. An element of a markup tag goes as it is: only a component
/// is turned into properties.
pub fn render<E: IntoElement>(element: E, container: &str) -> (m: Mount)
    ensures
        m.node@ == element.element(),
        m.container@ == container@,
{
    Mount { node: element.into_element().create(), container: container.to_owned() }
}

} // verus!
