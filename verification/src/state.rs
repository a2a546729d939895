//! State cells of a component instance, and the typed handles that a render
//! pass gets over them.
//!
//! The host keeps one cell per state slot of an instance. A slot is the
//! ordinal position of a `Context::state` call within a render pass: the
//! first pass registers the cells, and every later pass must ask for the
//! same slots in the same order.

use vstd::prelude::*;
use crate::value::{Marshal, RenderError, Value, ValueView};

verus! {

/// The cells after a direct write of `v` into `slot`.
pub open spec fn set_cell(cells: Seq<ValueView>, slot: int, v: ValueView) -> Seq<ValueView> {
    if 0 <= slot < cells.len() {
        cells.update(slot, v)
    } else {
        cells
    }
}

/// The cells after the direct writes of `updates`, applied in the order in
/// which they were issued.
pub open spec fn set_cells(cells: Seq<ValueView>, updates: Seq<Update>) -> Seq<ValueView>
    decreases updates.len(),
{
    if updates.len() == 0 {
        cells
    } else {
        set_cell(
            set_cells(cells, updates.drop_last()),
            updates.last().slot as int,
            updates.last().value@,
        )
    }
}

/// The typed value that a render pass reads from `slot`.
pub open spec fn snapshot<T: Marshal>(cells: Seq<ValueView>, slot: int) -> Option<T> {
    if 0 <= slot < cells.len() {
        T::decoded(cells[slot])
    } else {
        None
    }
}

/// A functional update of `slot` took the cells from `before` to `after`
/// and produced `applied`: the function was given the value that stood in
/// the cell at that moment.
pub open spec fn applied_with<T: Marshal, F: FnOnce(T) -> T>(
    before: Seq<ValueView>,
    slot: int,
    f: F,
    after: Seq<ValueView>,
    applied: T,
) -> bool {
    &&& 0 <= slot < before.len()
    &&& snapshot::<T>(before, slot) is Some
    &&& call_ensures(f, (snapshot::<T>(before, slot).unwrap(),), applied)
    &&& after == before.update(slot, applied.encoded())
}

/// A request to write `value` into the cell of `slot`.
#[derive(Debug, PartialEq, Eq)]
pub struct Update {
    pub slot: usize,
    pub value: Value,
}

/// A request to replace the cell of `slot` by what `update` makes of the
/// value that stands there when the request is applied.
pub struct Deferred<F> {
    pub slot: usize,
    pub update: F,
}

/// The state cells of one component instance, as the host keeps them
/// between render passes.
#[derive(Clone, Debug, PartialEq, Eq)]
pub struct Hooks {
    cells: Vec<Value>,
    mounted: bool,
}

impl Hooks {
    /// The content of the cells, by slot.
    pub closed spec fn cells(&self) -> Seq<ValueView> {
        self.cells@.map_values(|v: Value| v@)
    }

    /// Whether the first render pass of the instance is done.
    pub closed spec fn mounted(&self) -> bool {
        self.mounted
    }

    /// Cells are registered by the first render pass and by nothing else.
    pub open spec fn wf(&self) -> bool {
        self.mounted() || self.cells().len() == 0
    }

    /// The cells of an instance that was never rendered.
    pub fn new() -> (h: Hooks)
        ensures
            h.wf(),
            h.cells() == Seq::<ValueView>::empty(),
            !h.mounted(),
    {
        let h = Hooks { cells: Vec::new(), mounted: false };
        proof {
            assert(h.cells() =~= Seq::<ValueView>::empty());
        }
        h
    }

    /// The cells of an instance that was rendered before, as the host
    /// kept them.
    pub fn restore(cells: Vec<Value>) -> (h: Hooks)
        ensures
            h.wf(),
            h.mounted(),
            h.cells() == cells@.map_values(|v: Value| v@),
    {
        Hooks { cells, mounted: true }
    }

    /// How many cells the instance has.
    pub fn len(&self) -> (n: usize)
        ensures
            n == self.cells().len(),
    {
        self.cells.len()
    }

    /// Whether the first render pass of the instance is done.
    pub fn is_mounted(&self) -> (b: bool)
        ensures
            b == self.mounted(),
    {
        self.mounted
    }

    /// The value in the cell of `slot`, if the instance has that cell.
    pub fn cell(&self, slot: usize) -> (v: Option<Value>)
        ensures
            match v {
                Some(x) => slot < self.cells().len() && x@ == self.cells()[slot as int],
                None => slot >= self.cells().len(),
            },
    {
        if slot < self.cells.len() {
            Some(self.cells[slot].duplicate())
        } else {
            None
        }
    }

    /// A typed handle over the cell of `slot` as it stands, for a handler
    /// that fires after the render pass is over.
    pub fn state_at<T: Marshal>(&self, slot: usize) -> (r: Result<State<T>, RenderError>)
        ensures
            match snapshot::<T>(self.cells(), slot as int) {
                Some(x) => r is Ok && r.unwrap().value() == x && r.unwrap().slot() == slot,
                None => r == Err::<State<T>, RenderError>(
                    if slot >= self.cells().len() {
                        RenderError::SlotMismatch
                    } else {
                        RenderError::Marshal
                    },
                ),
            },
    {
        if slot >= self.cells.len() {
            return Err(RenderError::SlotMismatch);
        }
        match T::decode(&self.cells[slot]) {
            Ok(value) => Ok(State { value, slot }),
            Err(_) => Err(RenderError::Marshal),
        }
    }

    /// Applies a direct write. A write to a slot that the instance does not
    /// have is refused and changes nothing.
    pub fn apply(&mut self, update: Update) -> (r: Result<(), RenderError>)
        ensures
            old(self).wf() ==> final(self).wf(),
            final(self).mounted() == old(self).mounted(),
            final(self).cells() == set_cell(
                old(self).cells(),
                update.slot as int,
                update.value@,
            ),
            r is Ok <==> update.slot < old(self).cells().len(),
            r is Err ==> r == Err::<(), RenderError>(RenderError::SlotMismatch),
    {
        if update.slot < self.cells.len() {
            self.cells.set(update.slot, update.value);
            proof {
                assert(final(self).cells() =~= old(self).cells().update(
                    update.slot as int,
                    update.value@,
                ));
            }
            Ok(())
        } else {
            Err(RenderError::SlotMismatch)
        }
    }

    /// Applies the direct writes that were issued since the last render
    /// pass, in the order in which they were issued. Writes to slots that
    /// the instance does not have change nothing and are reported.
    pub fn apply_all(&mut self, updates: &Vec<Update>) -> (r: Result<(), RenderError>)
        ensures
            old(self).wf() ==> final(self).wf(),
            final(self).mounted() == old(self).mounted(),
            final(self).cells() == set_cells(old(self).cells(), updates@),
            r is Ok <==> forall|i: int|
                0 <= i < updates@.len() ==> (#[trigger] updates@[i]).slot < old(self).cells().len(),
            r is Err ==> r == Err::<(), RenderError>(RenderError::SlotMismatch),
    {
        let mut refused = false;
        let mut i: usize = 0;
        while i < updates.len()
            invariant
                i <= updates@.len(),
                old(self).wf() ==> self.wf(),
                self.mounted() == old(self).mounted(),
                self.cells().len() == old(self).cells().len(),
                self.cells() == set_cells(old(self).cells(), updates@.take(i as int)),
                !refused <==> forall|j: int|
                    0 <= j < i ==> (#[trigger] updates@[j]).slot < old(self).cells().len(),
            decreases updates@.len() - i,
        {
            proof {
                assert(updates@.take(i + 1).drop_last() =~= updates@.take(i as int));
            }
            let update = Update { slot: updates[i].slot, value: updates[i].value.duplicate() };
            if self.apply(update).is_err() {
                refused = true;
            }
            i = i + 1;
        }
        proof {
            assert(updates@.take(i as int) =~= updates@);
        }
        if refused {
            Err(RenderError::SlotMismatch)
        } else {
            Ok(())
        }
    }

    /// Applies a functional update: the function gets the value that stands
    /// in the cell now, whatever the render pass that issued the request saw
    /// there. Returns the value that was written.
    pub fn apply_with<T: Marshal, F: FnOnce(T) -> T>(&mut self, deferred: Deferred<F>) -> (r:
        Result<T, RenderError>)
        requires
            snapshot::<T>(old(self).cells(), deferred.slot as int) matches Some(latest)
                ==> call_requires(deferred.update, (latest,)),
        ensures
            old(self).wf() ==> final(self).wf(),
            final(self).mounted() == old(self).mounted(),
            match r {
                Ok(applied) => applied_with(
                    old(self).cells(),
                    deferred.slot as int,
                    deferred.update,
                    final(self).cells(),
                    applied,
                ),
                Err(e) => final(self).cells() == old(self).cells() && (e == if deferred.slot
                    >= old(self).cells().len() {
                    RenderError::SlotMismatch
                } else {
                    RenderError::Marshal
                }),
            },
            r is Ok <==> snapshot::<T>(old(self).cells(), deferred.slot as int) is Some,
    {
        let Deferred { slot, update } = deferred;
        if slot >= self.cells.len() {
            return Err(RenderError::SlotMismatch);
        }
        match T::decode(&self.cells[slot]) {
            Ok(latest) => {
                let applied = update(latest);
                let value = applied.encode();
                self.cells.set(slot, value);
                proof {
                    assert(final(self).cells() =~= old(self).cells().update(
                        slot as int,
                        applied.encoded(),
                    ));
                }
                Ok(applied)
            },
            Err(_) => Err(RenderError::Marshal),
        }
    }
}

/// A typed view of one state cell, as of the render pass that made it.
#[derive(Clone, Debug, PartialEq, Eq)]
pub struct State<T> {
    value: T,
    slot: usize,
}

impl<T> State<T> {
    /// The value of the cell when the render pass read it.
    pub closed spec fn value(&self) -> T {
        self.value
    }

    /// The slot of the cell.
    pub closed spec fn slot(&self) -> usize {
        self.slot
    }

    /// Read access to the snapshot.
    pub fn get(&self) -> (v: &T)
        ensures
            *v == self.value(),
    {
        &self.value
    }

    /// The slot of the cell.
    pub fn slot_index(&self) -> (s: usize)
        ensures
            s == self.slot(),
    {
        self.slot
    }
}

impl<T: Marshal> State<T> {

    /// Asks for `value` to be written into the cell. The snapshot that this
    /// handle holds stays as it is.
    pub fn set(&self, value: T) -> (u: Update)
        ensures
            u.slot == self.slot(),
            u.value@ == value.encoded(),
    {
        Update { slot: self.slot, value: value.encode() }
    }

    /// Asks for the cell to be replaced by what `f` makes of its latest
    /// value.
    pub fn set_with<F: FnOnce(T) -> T>(&self, f: F) -> (d: Deferred<F>)
        ensures
            d.slot == self.slot(),
            d.update == f,
    {
        Deferred { slot: self.slot, update: f }
    }
}

impl<T> core::ops::Deref for State<T> {
    type Target = T;

    fn deref(&self) -> (v: &T)
        ensures
            *v == self.value(),
    {
        &self.value
    }
}

/// The capability that a render pass has to its instance's cells.
pub struct Context {
    hooks: Hooks,
    cursor: usize,
}

/// Where a render pass stands: the cells, the slot that the next call of
/// `state` gets, and whether the instance was rendered before.
pub ghost struct Pass {
    pub cells: Seq<ValueView>,
    pub cursor: int,
    pub mounted: bool,
}

impl View for Context {
    type V = Pass;

    open spec fn view(&self) -> Pass {
        Pass { cells: self.cells(), cursor: self.cursor(), mounted: self.mounted() }
    }
}

impl Context {
    /// The cells as they stand.
    pub closed spec fn cells(&self) -> Seq<ValueView> {
        self.hooks.cells()
    }

    /// Whether this is a later pass of an instance that was rendered before.
    pub closed spec fn mounted(&self) -> bool {
        self.hooks.mounted()
    }

    /// The slot that the next call of `state` gets.
    pub closed spec fn cursor(&self) -> int {
        self.cursor as int
    }

    /// The cursor is within the cells; in a first pass it is at their end.
    pub open spec fn wf(&self) -> bool {
        &&& 0 <= self.cursor() <= self.cells().len()
        &&& !self.mounted() ==> self.cursor() == self.cells().len()
    }

    /// Starts a render pass over the cells of an instance.
    pub fn new(hooks: Hooks) -> (c: Context)
        requires
            hooks.wf(),
        ensures
            c.wf(),
            c.cells() == hooks.cells(),
            c.mounted() == hooks.mounted(),
            c.cursor() == 0,
    {
        Context { hooks, cursor: 0 }
    }

    /// The state of the next slot.
    ///
    /// In the first pass of an instance the cell is registered with
    /// `initial`, which is also the snapshot. In a later pass the snapshot is
    /// what the cell holds, and `initial` is ignored.
    pub fn state<T: Marshal>(&mut self, initial: T) -> (r: Result<State<T>, RenderError>)
        requires
            old(self).wf(),
        ensures
            final(self).wf(),
            final(self).mounted() == old(self).mounted(),
            !old(self).mounted() ==> {
                &&& r is Ok
                &&& r.unwrap().value() == initial
                &&& r.unwrap().slot() == old(self).cursor()
                &&& final(self).cells() == old(self).cells().push(initial.encoded())
                &&& final(self).cursor() == old(self).cursor() + 1
            },
            old(self).mounted() ==> final(self).cells() == old(self).cells(),
            old(self).mounted() ==> match snapshot::<T>(old(self).cells(), old(self).cursor()) {
                Some(x) => {
                    &&& r is Ok
                    &&& r.unwrap().value() == x
                    &&& r.unwrap().slot() == old(self).cursor()
                    &&& final(self).cursor() == old(self).cursor() + 1
                },
                None => {
                    &&& final(self).cursor() == old(self).cursor()
                    &&& r == Err::<State<T>, RenderError>(
                        if old(self).cursor() >= old(self).cells().len() {
                            RenderError::SlotMismatch
                        } else {
                            RenderError::Marshal
                        },
                    )
                },
            },
    {
        if !self.hooks.mounted {
            let slot = self.hooks.cells.len();
            let value = initial.encode();
            self.hooks.cells.push(value);
            self.cursor = self.hooks.cells.len();
            proof {
                assert(final(self).cells() =~= old(self).cells().push(initial.encoded()));
            }
            return Ok(State { value: initial, slot });
        }
        if self.cursor >= self.hooks.cells.len() {
            return Err(RenderError::SlotMismatch);
        }
        match T::decode(&self.hooks.cells[self.cursor]) {
            Ok(value) => {
                let slot = self.cursor;
                self.cursor = self.cursor + 1;
                Ok(State { value, slot })
            },
            Err(_) => Err(RenderError::Marshal),
        }
    }

    /// Ends the pass and hands the cells back. A later pass that asked for
    /// fewer slots than the instance has is refused.
    pub fn finish(self) -> (r: Result<Hooks, RenderError>)
        requires
            self.wf(),
        ensures
            match r {
                Ok(h) => {
                    &&& h.wf()
                    &&& self.cursor() == self.cells().len()
                    &&& h.cells() == self.cells()
                    &&& h.mounted()
                },
                Err(e) => e == RenderError::SlotMismatch && self.cursor() != self.cells().len(),
            },
    {
        if self.cursor != self.hooks.cells.len() {
            return Err(RenderError::SlotMismatch);
        }
        Ok(Hooks { cells: self.hooks.cells, mounted: true })
    }
}

/// Of two direct writes to one cell the later one stands: the earlier
/// leaves no trace.
pub proof fn lemma_last_write_wins(cells: Seq<ValueView>, slot: int, v1: ValueView, v2: ValueView)
    ensures
        set_cell(set_cell(cells, slot, v1), slot, v2) == set_cell(cells, slot, v2),
        0 <= slot < cells.len() ==> set_cell(set_cell(cells, slot, v1), slot, v2)[slot] == v2,
{
    assert(set_cell(set_cell(cells, slot, v1), slot, v2) =~= set_cell(cells, slot, v2));
}

/// Direct writes keep the number of cells.
pub proof fn lemma_set_cells_len(cells: Seq<ValueView>, updates: Seq<Update>)
    ensures
        set_cells(cells, updates).len() == cells.len(),
    decreases updates.len(),
{
    if updates.len() > 0 {
        lemma_set_cells_len(cells, updates.drop_last());
    }
}

/// However many direct writes were issued before a render pass, the cell of
/// the one issued last holds its value.
pub proof fn lemma_last_of_batch_wins(cells: Seq<ValueView>, updates: Seq<Update>)
    requires
        updates.len() > 0,
        updates.last().slot < cells.len(),
    ensures
        set_cells(cells, updates)[updates.last().slot as int] == updates.last().value@,
{
    lemma_set_cells_len(cells, updates.drop_last());
}

/// A render pass after a direct write of a typed value reads that value.
pub proof fn lemma_write_then_read<T: Marshal>(cells: Seq<ValueView>, slot: int, v: T)
    requires
        0 <= slot < cells.len(),
    ensures
        snapshot::<T>(set_cell(cells, slot, v.encoded()), slot) == Some(v),
{
    v.round_trip();
}

/// Two functional updates of one cell compose: the second is given what the
/// first produced, and a render pass afterwards reads what the second
/// produced.
pub proof fn lemma_updates_compose<T: Marshal, F1: FnOnce(T) -> T, F2: FnOnce(T) -> T>(
    c0: Seq<ValueView>,
    c1: Seq<ValueView>,
    c2: Seq<ValueView>,
    slot: int,
    f1: F1,
    f2: F2,
    y1: T,
    y2: T,
)
    requires
        applied_with(c0, slot, f1, c1, y1),
        applied_with(c1, slot, f2, c2, y2),
    ensures
        call_ensures(f1, (snapshot::<T>(c0, slot).unwrap(),), y1),
        call_ensures(f2, (y1,), y2),
        snapshot::<T>(c2, slot) == Some(y2),
        forall|i: int| 0 <= i < c0.len() && i != slot ==> c2[i] == c0[i],
{
    y1.round_trip();
    y2.round_trip();
}

} // verus!
