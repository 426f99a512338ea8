//! The two disjoint error kinds: assembly time and execution time.
use vstd::prelude::*;

verus! {

/// An operand that cannot be represented in its destination field.
#[derive(Clone, Copy, Debug, PartialEq, Eq, Structural)]
pub enum AssemblerError {
    ImmediateTooLargeError,
}

/// A fault raised while decoding or executing an instruction.
#[derive(Clone, Copy, Debug, PartialEq, Eq, Structural)]
pub enum RiscvError {
    /// No defined instruction has this opcode/funct3/funct7 combination.
    IllegalInstruction,
    /// An access whose address is not a multiple of its width.
    MisalignedAccess,
    /// An access outside the backing memory.
    MemoryFault,
}

} // verus!
