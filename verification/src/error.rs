//! The faults that end a run.

use vstd::prelude::*;

verus! {

/// Why an access or an instruction could not be carried out.
#[derive(Clone, Copy, Debug, PartialEq, Eq, Structural)]
pub enum CpuError {
    /// The fetched byte belongs to no instruction family.
    UnimplementedOpcode(u8),
    /// A register selector asked for the memory-indirect operand.
    UnsupportedAddressingMode,
    /// An access at this address lies outside the memory's capacity.
    OutOfBoundsMemoryAccess(u16),
    /// A pop found the stack empty.
    StackUnderflow,
    /// A push found the stack full.
    StackOverflow,
}

} // verus!
