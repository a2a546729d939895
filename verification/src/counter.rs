//! A button that counts its clicks: the smallest component with state.

use vstd::prelude::*;
use crate::component::Component;
use crate::element::{Child, Element, KindView, NodeView};
use crate::html::{click_key, Html};
use crate::props::Props;
use crate::state::{set_cell, snapshot, Context, Pass, State, Update};
use crate::value::{Marshal, RenderError, Value, ValueView};

verus! {

/// A button that shows a count, starting from `initial`.
#[derive(Clone, Copy, Debug, PartialEq, Eq)]
pub struct Counter {
    pub initial: u32,
}

/// The node of a counter that shows `count` and whose state is in `slot`.
pub open spec fn counter_node(count: u32, slot: int) -> NodeView {
    NodeView {
        kind: KindView::Tag("button"@),
        properties: Map::<Seq<char>, ValueView>::empty().insert(
            click_key(),
            ValueView::Handler(slot as nat),
        ),
        children: seq![Child::Value(Value::Number(count as i64))],
    }
}

/// The count after one more click. It stays at the largest count.
pub open spec fn next_count(count: u32) -> u32 {
    if count < u32::MAX {
        (count + 1) as u32
    } else {
        count
    }
}

impl Counter {
    /// The update that a click asks for: one more than the count that the
    /// render pass showed.
    pub fn click(state: &State<u32>) -> (u: Update)
        ensures
            u.slot == state.slot(),
            u.value@ == ValueView::Number(next_count(state.value()) as int),
    {
        let shown: u32 = *state.get();
        let next: u32 = if shown < u32::MAX {
            shown + 1
        } else {
            shown
        };
        state.set(next)
    }
}

impl Component for Counter {
    open spec fn name_spec() -> Seq<char> {
        "Counter"@
    }

    open spec fn props(&self) -> Map<Seq<char>, ValueView> {
        Map::<Seq<char>, ValueView>::empty().insert("initial"@, self.initial.encoded())
    }

    open spec fn from_props(p: Map<Seq<char>, ValueView>) -> Option<Counter> {
        if p.contains_key("initial"@) {
            match u32::decoded(p["initial"@]) {
                Some(initial) => Some(Counter { initial }),
                None => None,
            }
        } else {
            None
        }
    }

    proof fn props_round_trip(&self) {
        self.initial.round_trip();
    }

    fn name() -> (n: String) {
        "Counter".to_owned()
    }

    fn to_props(&self) -> (p: Props) {
        Props::new().set("initial".to_owned(), self.initial.encode())
    }

    fn parse(p: &Props) -> (r: Result<Counter, RenderError>) {
        match p.get("initial") {
            Some(v) => match u32::decode(&v) {
                Ok(initial) => Ok(Counter { initial }),
                Err(e) => Err(e),
            },
            None => Err(RenderError::Marshal),
        }
    }

    /// A first pass registers one cell with `initial` and shows `initial`;
    /// a later pass shows what the cell holds.
    open spec fn renders(
        &self,
        before: Pass,
        after: Pass,
        outcome: Result<NodeView, RenderError>,
    ) -> bool {
        &&& after.mounted == before.mounted
        &&& !before.mounted ==> {
            &&& outcome == Ok::<NodeView, RenderError>(counter_node(self.initial, before.cursor))
            &&& after.cells == before.cells.push(self.initial.encoded())
            &&& after.cursor == before.cursor + 1
        }
        &&& before.mounted ==> {
            &&& after.cells == before.cells
            &&& match snapshot::<u32>(before.cells, before.cursor) {
                Some(count) => {
                    &&& outcome == Ok::<NodeView, RenderError>(counter_node(count, before.cursor))
                    &&& after.cursor == before.cursor + 1
                },
                None => {
                    &&& after.cursor == before.cursor
                    &&& outcome == Err::<NodeView, RenderError>(
                        if before.cursor >= before.cells.len() {
                            RenderError::SlotMismatch
                        } else {
                            RenderError::Marshal
                        },
                    )
                },
            }
        }
    }

    fn render(&self, context: &mut Context) -> (r: Result<Element, RenderError>) {
        let count = match context.state(self.initial) {
            Ok(state) => state,
            Err(e) => {
                return Err(e);
            },
        };
        let shown: u32 = *count.get();
        let handler: u64 = count.slot_index() as u64;
        let button = Html::new("button").on_click(handler).to_element();
        Ok(button.child(Child::number(shown as i64)))
    }
}

/// A counter that was rendered once and clicked once shows, in its next
/// pass, one more than it started from: the pass reads the cell, not the
/// initial count.
pub proof fn lemma_click_then_render(
    c: Counter,
    first: Pass,
    shown_first: Result<NodeView, RenderError>,
    second: Pass,
    shown_second: Result<NodeView, RenderError>,
)
    requires
        c.renders(
            Pass { cells: Seq::<ValueView>::empty(), cursor: 0, mounted: false },
            first,
            shown_first,
        ),
        c.renders(
            Pass {
                cells: set_cell(first.cells, 0, next_count(c.initial).encoded()),
                cursor: 0,
                mounted: true,
            },
            second,
            shown_second,
        ),
    ensures
        shown_first == Ok::<NodeView, RenderError>(counter_node(c.initial, 0)),
        shown_second == Ok::<NodeView, RenderError>(counter_node(next_count(c.initial), 0)),
        second.cursor == second.cells.len(),
{
    next_count(c.initial).round_trip();
}

} // verus!
