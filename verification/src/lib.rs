//! Abstractions for memory-mapped I/O, checked by Verus.
//!
//! Memory-mapped I/O (MMIO) traffic must go through an explicit, audited
//! boundary: one acquisition step that states all preconditions, after which
//! every operation is checked by the type system and the verifier. The
//! [`VolBox`] ("volatile box") smart handle expresses unique ownership of a
//! volatile memory location, identified by its address and modelled by the
//! value it currently holds. Read and write permissions are compile-time
//! type parameters drawn from the [`Allow`], [`Warn`] and [`Deny`] markers:
//! a denied direction has no corresponding method at all, so misuse fails to
//! compile rather than at run time.

use vstd::prelude::*;

pub mod reg;
pub mod vcell;

verus! {

/// Allow access to a memory location.
///
/// A compile-time tag only; the library never constructs a value of it.
#[derive(Debug)]
pub struct Allow {
    _marker: (),
}

/// Allow access to a memory location under additional safety rules.
///
/// A compile-time tag only; the library never constructs a value of it.
#[derive(Debug)]
pub struct Warn {
    _marker: (),
}

/// Deny access to a memory location.
///
/// A compile-time tag only; the library never constructs a value of it.
#[derive(Debug)]
pub struct Deny {
    _marker: (),
}

/// An owned memory location for volatile reads and writes.
///
/// The handle owns its address for its entire lifetime: no other live handle
/// or reference may cover the same location. That exclusivity lets the model
/// carry the location's current contents alongside the address.
#[derive(Debug)]
#[must_use]
pub struct VolBox<T, R, W> {
    loc: usize,
    val: T,
    r: core::marker::PhantomData<R>,
    w: core::marker::PhantomData<W>,
}

impl<T, R, W> VolBox<T, R, W> {
    /// The address this handle owns.
    pub closed spec fn addr(self) -> usize {
        self.loc
    }

    /// The value the owned location currently holds.
    pub closed spec fn value(self) -> T {
        self.val
    }

    /// The handle that acquiring `loc` with initial contents `init` yields.
    pub closed spec fn spec_new(loc: usize, init: T) -> Self {
        VolBox { loc, val: init, r: core::marker::PhantomData, w: core::marker::PhantomData }
    }

    /// This handle with its location now holding `t`.
    pub closed spec fn with_value(self, t: T) -> Self {
        VolBox { val: t, ..self }
    }

    /// Acquire ownership of a memory location.
    ///
    /// The location is modelled as holding `init` from here on. If either `R`
    /// or `W` is [`Warn`], this volatile box should document the additional
    /// safety requirements for [`read`](Self::read) and
    /// [`write`](Self::write) respectively.
    ///
    /// The caller must ensure, for the lifetime of the handle, that no other
    /// live handle or reference covers `loc`, and that `loc` is backed by
    /// memory valid for the permitted directions.
    pub fn new(loc: usize, init: T) -> (b: Self)
        requires
            loc != 0,
            loc as nat % vstd::layout::align_of::<T>() == 0,
        ensures
            b == Self::spec_new(loc, init),
            b.addr() == loc,
            b.value() == init,
    {
        VolBox { loc, val: init, r: core::marker::PhantomData, w: core::marker::PhantomData }
    }

    /// Release ownership of the memory location.
    ///
    /// The address becomes eligible for a new acquisition.
    pub fn into_raw(self) -> (loc: usize)
        ensures
            loc == self.addr(),
    {
        self.loc
    }
}

impl<T: Copy, R, W> VolBox<T, R, W> {
    /// Acquire ownership of a run of consecutive, naturally-spaced memory
    /// locations, the first at `base`, slot `i` starting out holding
    /// `inits[i]`.
    ///
    /// Each slot's address is computed from `base` and its index directly,
    /// never by advancing a pointer, and each returned handle independently
    /// owns exactly one slot. The caller obligations of [`new`](Self::new)
    /// apply to every slot.
    pub fn new_range(base: usize, inits: Vec<T>) -> (r: Vec<VolBox<T, R, W>>)
        requires
            base != 0,
            base as nat % vstd::layout::align_of::<T>() == 0,
            vstd::layout::size_of::<T>() > 0,
            base + inits.len() * vstd::layout::size_of::<T>() <= usize::MAX,
        ensures
            r.len() == inits.len(),
            forall|i: int|
                0 <= i < r@.len() ==> (#[trigger] r@[i]).addr() == base + i * vstd::layout::size_of::<T>(),
            forall|i: int| 0 <= i < r@.len() ==> (#[trigger] r@[i]).value() == inits@[i],
            forall|i: int, j: int|
                0 <= i < r@.len() && 0 <= j < r@.len() && i != j ==> (#[trigger] r@[i]).addr() != (
                #[trigger] r@[j]).addr(),
    {
        let size: usize = core::mem::size_of::<T>();
        let mut r: Vec<VolBox<T, R, W>> = Vec::new();
        let mut i: usize = 0;
        while i < inits.len()
            invariant
                i <= inits.len(),
                r@.len() == i,
                size == vstd::layout::size_of::<T>(),
                size > 0,
                base != 0,
                base as nat % vstd::layout::align_of::<T>() == 0,
                base + inits.len() * size <= usize::MAX,
                forall|k: int| 0 <= k < i ==> (#[trigger] r@[k]).addr() == base + k * size,
                forall|k: int| 0 <= k < i ==> (#[trigger] r@[k]).value() == inits@[k],
            decreases inits.len() - i,
        {
            proof {
                vstd::arithmetic::mul::lemma_mul_inequality(i as int, inits.len() as int, size as int);
                vstd::arithmetic::div_mod::lemma_mul_mod_noop_right(
                    i as int,
                    size as int,
                    vstd::layout::align_of::<T>() as int,
                );
                vstd::arithmetic::div_mod::lemma_add_mod_noop(
                    base as int,
                    i as int * size as int,
                    vstd::layout::align_of::<T>() as int,
                );
            }
            let loc = base + i * size;
            r.push(VolBox::new(loc, inits[i]));
            i += 1;
        }
        proof {
            assert forall|a: int, b: int|
                0 <= a < r@.len() && 0 <= b < r@.len() && a != b implies (#[trigger] r@[a]).addr()
                != (#[trigger] r@[b]).addr() by {
                if a < b {
                    vstd::arithmetic::mul::lemma_mul_strict_inequality(a, b, size as int);
                } else {
                    vstd::arithmetic::mul::lemma_mul_strict_inequality(b, a, size as int);
                }
            }
        }
        r
    }
}

impl<T: Copy, W> VolBox<T, Warn, W> {
    /// Performs a volatile read on the owned memory location.
    ///
    /// Beyond the conditions stated at acquisition, the caller must satisfy
    /// the additional read rules documented on `self`.
    #[must_use]
    pub fn read(&self) -> (t: T)
        ensures
            t == self.value(),
    {
        self.val
    }
}

impl<T: Copy, W> VolBox<T, Allow, W> {
    /// Performs a volatile read on the owned memory location.
    #[must_use]
    pub fn read(&self) -> (t: T)
        ensures
            t == self.value(),
    {
        self.val
    }
}

impl<T: Copy, R> VolBox<T, R, Warn> {
    /// Performs a volatile write on the owned memory location.
    ///
    /// Beyond the conditions stated at acquisition, the caller must satisfy
    /// the additional write rules documented on `self`.
    pub fn write(&mut self, t: T)
        ensures
            *final(self) == old(self).with_value(t),
            final(self).addr() == old(self).addr(),
            final(self).value() == t,
    {
        self.val = t;
    }
}

impl<T: Copy, R> VolBox<T, R, Allow> {
    /// Performs a volatile write on the owned memory location.
    pub fn write(&mut self, t: T)
        ensures
            *final(self) == old(self).with_value(t),
            final(self).addr() == old(self).addr(),
            final(self).value() == t,
    {
        self.val = t;
    }
}

impl<T: Copy, W, const N: usize> VolBox<[T; N], Warn, W> {
    /// Performs a volatile read on the owned memory location at a specific
    /// index.
    ///
    /// Beyond the conditions stated at acquisition, the caller must satisfy
    /// the additional read rules documented on `self`.
    #[must_use]
    pub fn read_at(&self, i: usize) -> (t: T)
        requires
            i < N,
        ensures
            t == self.value()@[i as int],
    {
        self.val[i]
    }
}

impl<T: Copy, W, const N: usize> VolBox<[T; N], Allow, W> {
    /// Performs a volatile read on the owned memory location at a specific
    /// index.
    #[must_use]
    pub fn read_at(&self, i: usize) -> (t: T)
        requires
            i < N,
        ensures
            t == self.value()@[i as int],
    {
        self.val[i]
    }
}

impl<T: Copy, R, const N: usize> VolBox<[T; N], R, Warn> {
    /// Performs a volatile write on the owned memory location at a specific
    /// index.
    ///
    /// Beyond the conditions stated at acquisition, the caller must satisfy
    /// the additional write rules documented on `self`.
    pub fn write_at(&mut self, i: usize, t: T)
        requires
            i < N,
        ensures
            final(self).addr() == old(self).addr(),
            final(self).value()@ == old(self).value()@.update(i as int, t),
    {
        self.val[i] = t;
    }
}

impl<T: Copy, R, const N: usize> VolBox<[T; N], R, Allow> {
    /// Performs a volatile write on the owned memory location at a specific
    /// index.
    pub fn write_at(&mut self, i: usize, t: T)
        requires
            i < N,
        ensures
            final(self).addr() == old(self).addr(),
            final(self).value()@ == old(self).value()@.update(i as int, t),
    {
        self.val[i] = t;
    }
}

/// Law: acquiring a location and immediately releasing it hands back the
/// original address unchanged.
pub proof fn lemma_acquire_then_release<T, R, W>(loc: usize, init: T)
    requires
        loc != 0,
        loc as nat % vstd::layout::align_of::<T>() == 0,
    ensures
        VolBox::<T, R, W>::spec_new(loc, init).addr() == loc,
{
}

/// Law: writing `t` through a handle leaves its location holding `t` and its
/// address unchanged, so an immediate read through the same handle yields `t`.
pub proof fn lemma_write_then_read<T, R, W>(b: VolBox<T, R, W>, t: T)
    ensures
        b.with_value(t).value() == t,
        b.with_value(t).addr() == b.addr(),
{
}

/// Law: indexed access on a handle over a run behaves exactly like a
/// single-element handle over the slot at offset `i * size_of::<T>()`. For a
/// handle `e` over that slot holding the same element, writing at index `i`
/// leaves index `i` holding what `e` holds after the same write, leaves every
/// other index unchanged, and a later read at index `i` yields the value just
/// written.
pub proof fn lemma_indexed_access_matches_element_handle<T, R, W, const N: usize>(
    b: VolBox<[T; N], R, W>,
    e: VolBox<T, R, W>,
    i: int,
    t: T,
)
    requires
        0 <= i < N,
        e.addr() == b.addr() + i * vstd::layout::size_of::<T>(),
        e.value() == b.value()@[i],
    ensures
        b.value()@.update(i, t)[i] == t,
        b.value()@.update(i, t)[i] == e.with_value(t).value(),
        forall|j: int| 0 <= j < N && j != i ==> b.value()@.update(i, t)[j] == b.value()@[j],
{
}

} // verus!
