//! The ways in which the emulated machine can refuse to go on.

use vstd::prelude::*;

verus! {

/// A condition that stops the machine. None of them is recoverable by the
/// guest program: the instruction that meets one is not executed.
#[derive(Clone, Copy, Debug, PartialEq, Eq, Structural)]
pub enum Fault {
    /// The byte at `pc` is not in the opcode table.
    UnknownOpcode { code: u8, pc: u16 },
    /// A write was aimed at the cartridge's program ROM.
    WriteToROM { addr: u16 },
    /// An access was aimed at an address that no implemented device answers.
    UnimplementedRegion { addr: u16 },
}

} // verus!
