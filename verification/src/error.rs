//! The conditions on which the emulation stops.

use vstd::prelude::*;

verus! {

/// The fatal conditions that stop the emulation.
#[derive(Clone, Copy, Debug, PartialEq, Eq, Structural)]
pub enum EmuError {
    /// A memory access fell outside `0x000..=0xFFF`.
    AddressOutOfRange,
    /// `RET` was executed with an empty call stack.
    StackUnderflow,
    /// The program does not fit between `0x200` and the end of memory.
    ProgramTooLarge,
    /// A key instruction named a key code that the keyboard map does not hold.
    UnknownKey,
}

} // verus!
