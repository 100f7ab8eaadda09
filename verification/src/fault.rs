//! The ways in which the machine refuses to carry out an operation.

use vstd::prelude::*;

verus! {

/// Why an operation was refused. Whenever one of these is returned the machine
/// is left exactly as it was.
#[derive(Clone, Copy, Debug, PartialEq, Eq, Structural)]
pub enum Fault {
    /// A font lookup was asked for a value that is not a hexadecimal digit.
    InvalidDigit,
    /// A call was made while every stack slot was in use.
    StackOverflow,
    /// A return was made while the stack was empty.
    StackUnderflow,
    /// The leading nibble of the instruction word selects no instruction group.
    UnknownOpcode,
    /// The instruction word belongs to the `F` group but names no operation of it.
    UnimplementedOpcode,
    /// A computed address, index or counter lies outside the storage it refers to.
    OutOfBounds,
}

impl Fault {
    /// Only an unknown leading nibble may be reported and skipped over; every
    /// other fault ends the emulation.
    pub open spec fn fatal(self) -> bool {
        self != Fault::UnknownOpcode
    }

    /// Whether the driver has to stop after this fault.
    pub fn is_fatal(self) -> (r: bool)
        ensures
            r == self.fatal(),
    {
        match self {
            Fault::UnknownOpcode => false,
            _ => true,
        }
    }
}

} // verus!
