//! The fatal conditions that stop the machine.

use vstd::prelude::*;

verus! {

/// Why an instruction that decoded correctly could not be carried out.
#[derive(Clone, Copy, Debug, PartialEq, Eq, Structural)]
pub enum Trap {
    /// The instruction reads or writes memory beyond the last address.
    MemoryOutOfBounds,
    /// A call was made with all sixteen stack entries in use.
    StackOverflow,
    /// A return was made with no call outstanding.
    StackUnderflow,
    /// A key instruction names a key beyond the sixteen that exist.
    KeyOutOfRange,
}

/// A fatal condition that stops the machine at an instruction boundary.
#[derive(Clone, Copy, Debug, PartialEq, Eq, Structural)]
pub enum Fault {
    /// The two bytes of the next instruction do not both lie in memory.
    FetchOutOfBounds { pc: u16 },
    /// The opcode matches no instruction.
    UnknownOpcode { opcode: u16 },
    /// The opcode names an instruction that cannot run in the current state.
    Trapped { opcode: u16, trap: Trap },
}

} // verus!
