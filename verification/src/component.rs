//! Components: typed values that render to an element, and the adapter
//! that lets the host call them.

use vstd::prelude::*;
use crate::element::{Child, Element, HostNode, IntoElement, Kind, KindView, NodeView};
use crate::props::Props;
use crate::state::{Context, Hooks, Pass};
use crate::value::{RenderError, ValueView};

verus! {

/// A typed value whose fields are its properties and which renders to an
/// element.
///
/// `from_props` is the left inverse of `props`: the properties that a
/// component was turned into give the component back.
pub trait Component: Sized {
    /// The name under which the host knows the component's render function.
    spec fn name_spec() -> Seq<char>;

    /// The component as a property mapping.
    spec fn props(&self) -> Map<Seq<char>, ValueView>;

    /// The component that a property mapping stands for, if any.
    spec fn from_props(p: Map<Seq<char>, ValueView>) -> Option<Self>;

    /// Turning a component into properties and back gives the component.
    proof fn props_round_trip(&self)
        ensures
            Self::from_props(self.props()) == Some(*self),
    ;

    fn name() -> (n: String)
        ensures
            n@ == Self::name_spec(),
    ;

    fn to_props(&self) -> (p: Props)
        ensures
            p@ == self.props(),
    ;

    fn parse(p: &Props) -> (r: Result<Self, RenderError>)
        ensures
            match Self::from_props(p@) {
                Some(c) => r == Ok::<Self, RenderError>(c),
                None => r == Err::<Self, RenderError>(RenderError::Marshal),
            },
    ;

    /// What a render pass of `self` may do: `outcome` is what it returns
    /// when it starts at `before` and leaves the pass at `after`.
    spec fn renders(
        &self,
        before: Pass,
        after: Pass,
        outcome: Result<NodeView, RenderError>,
    ) -> bool;

    /// One render pass. State is had from `context`, slot by slot, in the
    /// same order in every pass.
    fn render(&self, context: &mut Context) -> (r: Result<Element, RenderError>)
        requires
            old(context).wf(),
        ensures
            final(context).wf(),
            final(context).mounted() == old(context).mounted(),
            self.renders(old(context)@, final(context)@, outcome_view(r)),
    ;

    /// The element that stands for this component: its kind is the
    /// component's render function, its properties are the component, and
    /// it has no child.
    fn to_element(&self) -> (e: Element)
        ensures
            e@ == (NodeView {
                kind: KindView::Render(Self::name_spec()),
                properties: self.props(),
                children: Seq::<Child>::empty(),
            }),
    {
        Element::new(Kind::Render(Self::name()), self.to_props(), Vec::new())
    }
}

/// What a render pass returned, by content.
pub open spec fn outcome_view(r: Result<Element, RenderError>) -> Result<NodeView, RenderError> {
    match r {
        Ok(element) => Ok(element@),
        Err(e) => Err(e),
    }
}

/// The content of the element that stands for `c`.
pub open spec fn component_node<C: Component>(c: C) -> NodeView {
    NodeView {
        kind: KindView::Render(C::name_spec()),
        properties: c.props(),
        children: Seq::<Child>::empty(),
    }
}

impl Element {
    /// The element that stands for `component`.
    pub fn new_component<C: Component>(component: &C) -> (e: Element)
        ensures
            e@ == component_node::<C>(*component),
    {
        component.to_element()
    }
}

impl<C: Component> IntoElement for C {
    open spec fn element(self) -> NodeView {
        component_node::<C>(self)
    }

    fn into_element(self) -> (e: Element) {
        self.to_element()
    }
}

/// What one call of a render function gives the host: the node, and the
/// instance's cells as the pass left them.
#[derive(Debug, PartialEq, Eq)]
pub struct Rendered {
    pub node: HostNode,
    pub hooks: Hooks,
}

/// What the render function returns once the component's own `render` is
/// through: its failure, or its element made into a node, provided that the
/// pass asked for every slot of the instance.
pub open spec fn concluded(outcome: Result<NodeView, RenderError>, after: Pass) -> Result<
    (NodeView, Seq<ValueView>),
    RenderError,
> {
    match outcome {
        Err(e) => Err(e),
        Ok(node) => if after.cursor == after.cells.len() {
            Ok((node, after.cells))
        } else {
            Err(RenderError::SlotMismatch)
        },
    }
}

/// `r` is what the render function returns for a pass that ended at
/// `after` with `outcome`.
pub open spec fn is_conclusion(
    r: Result<Rendered, RenderError>,
    outcome: Result<NodeView, RenderError>,
    after: Pass,
) -> bool {
    match concluded(outcome, after) {
        Ok((node, cells)) => {
            &&& r is Ok
            &&& r.unwrap().node@ == node
            &&& r.unwrap().hooks.cells() == cells
            &&& r.unwrap().hooks.mounted()
            &&& r.unwrap().hooks.wf()
        },
        Err(e) => r == Err::<Rendered, RenderError>(e),
    }
}

/// The pass that a render function starts over the cells of an instance.
pub open spec fn first_slot(hooks: Hooks) -> Pass {
    Pass { cells: hooks.cells(), cursor: 0, mounted: hooks.mounted() }
}

/// Ends a render pass with what the component's `render` returned.
pub fn conclude(outcome: Result<Element, RenderError>, context: Context) -> (r: Result<
    Rendered,
    RenderError,
>)
    requires
        context.wf(),
    ensures
        is_conclusion(r, outcome_view(outcome), context@),
{
    match outcome {
        Err(e) => Err(e),
        Ok(element) => match context.finish() {
            Ok(hooks) => Ok(Rendered { node: element.create(), hooks }),
            Err(e) => Err(e),
        },
    }
}

/// The render function of component `C`, as the host calls it: the
/// properties are read back as a `C`, which renders over the instance's
/// cells.
///
/// Properties that do not stand for a `C` are a marshalling failure.
/// Otherwise the result is the conclusion of one pass of that `C` from the
/// first slot of the cells.
pub fn invoke<C: Component>(props: &Props, hooks: Hooks) -> (r: Result<Rendered, RenderError>)
    requires
        hooks.wf(),
    ensures
        match C::from_props(props@) {
            None => r == Err::<Rendered, RenderError>(RenderError::Marshal),
            Some(c) => exists|after: Pass, outcome: Result<NodeView, RenderError>|
                #[trigger] c.renders(first_slot(hooks), after, outcome) && is_conclusion(
                    r,
                    outcome,
                    after,
                ),
        },
{
    match C::parse(props) {
        Err(e) => Err(e),
        Ok(component) => {
            let mut context = Context::new(hooks);
            let outcome = component.render(&mut context);
            let ghost after = context@;
            let ghost seen = outcome_view(outcome);
            let r = conclude(outcome, context);
            proof {
                assert(component.renders(first_slot(hooks), after, seen) && is_conclusion(
                    r,
                    seen,
                    after,
                ));
            }
            r
        },
    }
}

/// The properties of the element that stands for a component give the
/// component back.
pub proof fn lemma_component_round_trip<C: Component>(c: C)
    ensures
        C::from_props(component_node::<C>(c).properties) == Some(c),
{
    c.props_round_trip();
}

} // verus!
