//! Derived signals: read-only projections of a source cell through a pure
//! transformation, recomputed from the source's current value on each read.

use vstd::prelude::*;
use crate::cell::{Cell, Runtime};

verus! {

/// Read-only view of a source [`Cell`] through a transformation function.
/// The signal holds the handle of its source and never mutates it; each
/// read applies the function to the source's current value, so the result
/// is never stale. The function is expected to be pure (no observable side
/// effects, same output for the same input); how often it runs is an
/// implementation choice, not a contract.
pub struct DerivedSignal<F> {
    source: Cell,
    f: F,
}

impl<F> DerivedSignal<F> {
    /// The handle of the cell this signal reads from.
    pub closed spec fn source(&self) -> Cell {
        self.source
    }

    /// The transformation applied to the source's current value.
    pub closed spec fn func(&self) -> F {
        self.f
    }

    /// The signal is valid for `rt`: its source cell is owned by `rt`.
    pub open spec fn wf<T>(&self, rt: &Runtime<T>) -> bool {
        self.source().wf(rt)
    }

    /// Binds the transformation `f` to `source`, producing a read-only
    /// signal over it. Never fails; the source is not changed.
    pub fn from<T, U>(source: &Cell, f: F) -> (s: Self) where F: Fn(T) -> U
        ensures
            s.source() == *source,
            s.func() == f,
    {
        DerivedSignal { source: *source, f }
    }

    /// Evaluates the transformation against the source's current value and
    /// returns the result: the returned value is an output the function
    /// admits on the value the source holds now, not on any earlier one.
    pub fn get<T: Copy, U>(&self, rt: &Runtime<T>) -> (r: U) where F: Fn(T) -> U
        requires
            self.wf(rt),
            call_requires(self.func(), (self.source().value(rt),)),
        ensures
            call_ensures(self.func(), (self.source().value(rt),), r),
    {
        let v: T = *self.source.get(rt);
        (self.f)(v)
    }
}

/// A pure transformation admits one output per input, so a derived read is
/// pinned to the transformation of the source's current value: any two
/// results the function can return on the same current value are equal.
/// With `get`'s contract this says a derived value always tracks its
/// source and is never stale, and that derived reads with no write in
/// between are idempotent.
pub proof fn lemma_derived_tracks_source<T, U, F: Fn(T) -> U>(f: F, x: T, r1: U, r2: U)
    requires
        forall|a: T, b1: U, b2: U|
            #[trigger] call_ensures(f, (a,), b1) && #[trigger] call_ensures(f, (a,), b2)
                ==> b1 == b2,
        call_ensures(f, (x,), r1),
        call_ensures(f, (x,), r2),
    ensures
        r1 == r2,
{
}

/// Two derived signals over the same cell both reflect a write to it: after
/// the source's slot is updated to `v`, whichever of the two is read first,
/// each read returns an output of its own transformation applied to `v`.
pub proof fn lemma_two_signals_observe_write<T, U1, U2, F1: Fn(T) -> U1, F2: Fn(T) -> U2>(
    before: Runtime<T>,
    after: Runtime<T>,
    c: Cell,
    v: T,
    s1: DerivedSignal<F1>,
    s2: DerivedSignal<F2>,
    r1: U1,
    r2: U2,
)
    requires
        c.wf(&before),
        s1.source() == c,
        s2.source() == c,
        after@ == before@.update(c.id(), v),
        call_ensures(s1.func(), (s1.source().value(&after),), r1),
        call_ensures(s2.func(), (s2.source().value(&after),), r2),
    ensures
        s1.wf(&after),
        s2.wf(&after),
        call_ensures(s1.func(), (v,), r1),
        call_ensures(s2.func(), (v,), r2),
{
}

} // verus!
