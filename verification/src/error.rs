//! The two ways in which execution fails. Both end the run: neither is
//! retried or recovered from.

use vstd::prelude::*;

verus! {

/// A fatal execution error. Both kinds carry the opcode byte that caused
/// them and the address it was fetched from.
#[derive(Clone, Copy, Debug, PartialEq, Eq, Structural)]
pub enum CpuError {
    /// The fetched byte has no entry in the opcode table.
    UnknownOpcode { opcode: u8, program_counter: u16 },
    /// An instruction that works on a memory operand was paired with the
    /// addressing mode that has none.
    UnsupportedAddressingMode { opcode: u8, program_counter: u16 },
}

} // verus!
