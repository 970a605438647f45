//! The fatal conditions that stop execution.

use vstd::prelude::*;

verus! {

/// A condition that aborts execution: an encoding with no defined operation,
/// or a memory access outside the configured memory or across a page boundary.
#[derive(Clone, Copy, Debug, PartialEq, Eq, Structural)]
pub enum VmError {
    /// No operation is defined for this opcode.
    InvalidOpcode { opcode: u8 },
    /// No operation is defined for this function-3 code under this opcode.
    InvalidFunct3 { opcode: u8, funct3: u8 },
    /// No register-register operation is defined for this composite
    /// `(funct7 << 3) | funct3` key.
    InvalidAluKey { key: u16 },
    /// The access at this address leaves memory or crosses a page boundary.
    MemoryFault { address: u32 },
}

} // verus!
