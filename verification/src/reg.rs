//! Typesafe MMIO register abstractions.
//!
//! A register descriptor exposes one [`VCell`] of a fixed raw value type and
//! adds a value-conversion boundary: a readable register declares a read type
//! convertible from the raw type, a writable register a write type
//! convertible into it. The volatile-access policy is centralized once, in
//! the default methods, so concrete hardware-register definitions only state
//! their raw storage type and conversion.

use vstd::prelude::*;
use vstd::std_specs::convert::FromSpec;
use vstd::std_specs::convert::FromSpecImpl;
use vstd::std_specs::convert::IntoSpec;

use crate::vcell::VCell;

verus! {

/// A register wrapper over a volatile cell.
pub trait Reg {
    /// The value type of the volatile cell.
    type Val: Copy;

    /// The raw value the register's cell currently holds.
    spec fn raw(&self) -> Self::Val;

    /// Access the volatile cell.
    fn vcell(&self) -> (c: &VCell<Self::Val>)
        ensures
            c.value() == self.raw(),
    ;

    /// Access the volatile cell for writing.
    fn vcell_mut(&mut self) -> (c: &mut VCell<Self::Val>)
        ensures
            c.value() == old(self).raw(),
            final(self).raw() == final(c).value(),
    ;
}

/// A readable MMIO register.
pub trait ReadReg: Reg {
    /// The value type read.
    type Read: From<Self::Val>;

    /// Reads a value: the raw value currently stored via the register's
    /// cell, converted to the read type.
    fn read(&self) -> (r: Self::Read)
        ensures
            <Self::Read as FromSpec<Self::Val>>::obeys_from_spec() ==> r == <Self::Read as FromSpec<
                Self::Val,
            >>::from_spec(self.raw()),
    {
        let v = self.vcell().get();
        v.into()
    }
}

/// A writable MMIO register.
pub trait WriteReg: Reg {
    /// The value type written.
    type Write: Into<Self::Val>;

    /// Writes a value: converts it into the raw type, then stores the result
    /// via the register's cell.
    fn write(&mut self, w: Self::Write)
        ensures
            <Self::Write as IntoSpec<Self::Val>>::obeys_into_spec() ==> final(self).raw() == <
            Self::Write as IntoSpec<Self::Val>>::into_spec(w),
    {
        let v = w.into();
        self.vcell_mut().set(v);
    }
}

/// A one-bit view of a byte-wide register: any nonzero raw byte reads as a
/// raised flag, and a raised flag is stored as one.
#[derive(Clone, Copy, Debug, PartialEq, Eq, Structural)]
pub struct Flag(pub bool);

impl From<u8> for Flag {
    fn from(v: u8) -> (r: Flag) {
        Flag(v != 0)
    }
}

impl FromSpecImpl<u8> for Flag {
    open spec fn obeys_from_spec() -> bool {
        true
    }

    open spec fn from_spec(v: u8) -> Flag {
        Flag(v != 0)
    }
}

impl From<Flag> for u8 {
    fn from(f: Flag) -> (r: u8) {
        if f.0 {
            1
        } else {
            0
        }
    }
}

impl FromSpecImpl<Flag> for u8 {
    open spec fn obeys_from_spec() -> bool {
        true
    }

    open spec fn from_spec(f: Flag) -> u8 {
        if f.0 {
            1u8
        } else {
            0u8
        }
    }
}

/// A register storing one raw byte, read and written as a [`Flag`].
pub struct FlagReg {
    cell: VCell<u8>,
}

impl FlagReg {
    /// Wraps `cell` as a flag register.
    pub fn new(cell: VCell<u8>) -> (r: FlagReg)
        ensures
            r.raw() == cell.value(),
    {
        FlagReg { cell }
    }
}

impl Reg for FlagReg {
    type Val = u8;

    closed spec fn raw(&self) -> u8 {
        self.cell.value()
    }

    fn vcell(&self) -> (c: &VCell<u8>) {
        &self.cell
    }

    fn vcell_mut(&mut self) -> (c: &mut VCell<u8>) {
        &mut self.cell
    }
}

impl ReadReg for FlagReg {
    type Read = Flag;
}

impl WriteReg for FlagReg {
    type Write = Flag;
}

/// Law: storing a flag as its raw byte and decoding that byte again yields
/// the original flag, so a permitted write of a flag followed by a permitted
/// read reflects it unchanged.
pub proof fn lemma_flag_round_trip(f: Flag)
    ensures
        <Flag as FromSpec<u8>>::from_spec(<u8 as FromSpec<Flag>>::from_spec(f)) == f,
{
}

} // verus!
