//! Value cells: mutable, observable containers for a single current value,
//! allocated as slots of a central owning table.

use vstd::prelude::*;

verus! {

/// Central owning table for reactive values. Every [`Cell`] is a handle
/// into one `Runtime`, which holds the current value of each cell it has
/// created. The runtime is viewed as the sequence of those current values,
/// indexed by cell identifier.
pub struct Runtime<T> {
    values: Vec<T>,
}

/// Handle to one value slot of a [`Runtime`]: a mutable, observable
/// container for a single current value. Copying the handle shares the
/// slot; it does not copy the value.
#[derive(Clone, Copy, PartialEq, Eq, Structural)]
pub struct Cell {
    id: usize,
}

impl<T> View for Runtime<T> {
    type V = Seq<T>;

    closed spec fn view(&self) -> Seq<T> {
        self.values@
    }
}

impl<T> Runtime<T> {
    /// Creates an empty runtime that owns no cells yet.
    pub fn new() -> (rt: Self)
        ensures
            rt@ == Seq::<T>::empty(),
    {
        Runtime { values: Vec::new() }
    }
}

impl Cell {
    /// The index of the slot this handle points at.
    pub closed spec fn id(&self) -> int {
        self.id as int
    }

    /// The handle is valid for `rt`: it points at a slot that `rt` owns.
    pub open spec fn wf<T>(&self, rt: &Runtime<T>) -> bool {
        0 <= self.id() < rt@.len()
    }

    /// The current value of this cell in `rt`: the most recently written
    /// value, or the initial one if the cell was never written.
    pub open spec fn value<T>(&self, rt: &Runtime<T>) -> T
        recommends
            self.wf(rt),
    {
        rt@[self.id()]
    }

    /// Constructs a cell owned by `rt` and holding `initial`. Never fails.
    /// Existing cells keep their slots and their current values.
    pub fn new<T>(rt: &mut Runtime<T>, initial: T) -> (c: Cell)
        ensures
            c.wf(final(rt)),
            c.id() == old(rt)@.len(),
            final(rt)@ == old(rt)@.push(initial),
            c.value(final(rt)) == initial,
    {
        let id = rt.values.len();
        rt.values.push(initial);
        Cell { id }
    }

    /// Returns the cell's current value. No side effects; never fails.
    pub fn get<'a, T>(&self, rt: &'a Runtime<T>) -> (r: &'a T)
        requires
            self.wf(rt),
        ensures
            *r == self.value(rt),
    {
        &rt.values[self.id]
    }

    /// Replaces the cell's current value with `v`: last write wins, and any
    /// read through this cell or through a derived signal over it afterward
    /// observes `v`. Every other cell of `rt` keeps its current value.
    pub fn set<T>(&self, rt: &mut Runtime<T>, v: T)
        requires
            self.wf(old(rt)),
        ensures
            final(rt)@ == old(rt)@.update(self.id(), v),
            self.wf(final(rt)),
            self.value(final(rt)) == v,
    {
        rt.values[self.id] = v;
    }
}

/// A write is immediately visible: after `set` stores `v` in a cell, `get`
/// on the same cell returns `v`, whatever the cell held before.
pub proof fn lemma_set_then_get<T>(before: Runtime<T>, after: Runtime<T>, c: Cell, v: T)
    requires
        c.wf(&before),
        after@ == before@.update(c.id(), v),
    ensures
        c.wf(&after),
        c.value(&after) == v,
{
}

/// Reads are idempotent: the result of `get` is determined by the cell's
/// current value alone, so any two reads with no write in between return
/// the same value.
pub proof fn lemma_get_idempotent<T>(rt: Runtime<T>, c: Cell, r1: T, r2: T)
    requires
        c.wf(&rt),
        r1 == c.value(&rt),
        r2 == c.value(&rt),
    ensures
        r1 == r2,
{
}

/// Cells are independent: a write to one cell leaves the current value of
/// every other cell of the same runtime unchanged.
pub proof fn lemma_set_frames_others<T>(
    before: Runtime<T>,
    after: Runtime<T>,
    c: Cell,
    d: Cell,
    v: T,
)
    requires
        c.wf(&before),
        d.wf(&before),
        c.id() != d.id(),
        after@ == before@.update(c.id(), v),
    ensures
        d.wf(&after),
        d.value(&after) == d.value(&before),
{
}

} // verus!
