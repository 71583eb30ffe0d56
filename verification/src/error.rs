//! The conditions that stop the interpreter.

use vstd::prelude::*;

verus! {

/// A fatal condition. None of them is transient: each one means that the
/// program is malformed or that it left the memory model, so nothing is
/// retried and the machine is left as it was before the failing operation.
#[derive(Debug, Clone, Copy, PartialEq, Eq, Structural)]
pub enum Chip8Error {
    /// A memory access started at `address`, and not all of it lies below 4096.
    OutOfBounds { address: usize },
    /// The 16-bit word matches no instruction of the machine.
    UnimplementedInstruction { instruction: u16 },
    /// A program of `len` bytes does not fit between address 512 and the end of memory.
    CapacityExceeded { len: usize },
    /// A subroutine call with sixteen return addresses already on the call stack.
    StackOverflow,
    /// A return with no return address on the call stack.
    StackUnderflow,
}

} // verus!
