//! A non-owning volatile memory cell.

use vstd::prelude::*;

verus! {

/// A mutable, volatile memory location suitable for MMIO.
///
/// Unlike [`VolBox`](crate::VolBox), the cell is not tied to an address of
/// its own: it is intended to sit at a fixed offset inside a larger struct
/// that describes a hardware register block, so offsets come from ordinary
/// struct layout rather than manual arithmetic.
pub struct VCell<T> {
    val: T,
}

impl<T> VCell<T> {
    /// The value the cell currently holds.
    pub closed spec fn value(self) -> T {
        self.val
    }

    /// This cell now holding `t`.
    pub closed spec fn with_value(self, t: T) -> Self {
        VCell { val: t }
    }

    /// Conjures up a `VCell<T>` holding `init`.
    ///
    /// The caller must ensure that, for the cell's lifetime, the location it
    /// stands for is covered by no other live cell, handle or reference.
    pub fn conjure(init: T) -> (c: VCell<T>)
        ensures
            c.value() == init,
    {
        VCell { val: init }
    }
}

impl<T: Copy> VCell<T> {
    /// Sets the contained value.
    pub fn set(&mut self, val: T)
        ensures
            *final(self) == old(self).with_value(val),
            final(self).value() == val,
    {
        self.val = val;
    }

    /// Replaces the contained value, and returns it.
    ///
    /// This is two sequential volatile operations, not one atomic exchange.
    pub fn replace(&mut self, val: T) -> (prior: T)
        ensures
            prior == old(self).value(),
            *final(self) == old(self).with_value(val),
            final(self).value() == val,
    {
        let prior = self.get();
        self.set(val);
        prior
    }

    /// Returns a copy of the contained value.
    pub fn get(&self) -> (t: T)
        ensures
            t == self.value(),
    {
        self.val
    }
}

/// Law: setting a cell to `v` leaves it holding `v`, so an immediate `get`
/// yields `v`; a later `replace` hands that same `v` back as the prior value.
pub proof fn lemma_set_then_get<T>(c: VCell<T>, v: T)
    ensures
        c.with_value(v).value() == v,
{
}

} // verus!
