//! Errors reported by the standard library and by function registration.

use vstd::prelude::*;

verus! {

/// What went wrong in a memory-manager operation.
#[derive(Clone, Copy, Debug, PartialEq, Eq, Structural)]
pub enum MemoryErrorKind {
    /// The pointer does not name a block the manager knows.
    InvalidPointer(usize),
    /// The block still has references and cannot be deallocated.
    ActiveReferences,
    /// Growing memory for `size` bytes would need `pages` pages, above `max`.
    ExceedsMaxPages { size: usize, pages: u32, max: u32 },
    /// The access runs past the end of memory.
    OutOfBounds,
}

/// What went wrong in a typed list access.
#[derive(Clone, Copy, Debug, PartialEq, Eq, Structural)]
pub enum TypeErrorKind {
    /// The pointer does not name a list.
    InvalidListPointer,
    /// The index is not below the list's size.
    IndexOutOfBounds { index: usize, size: usize },
}

/// An error of the standard library or of the code generator.
#[derive(Clone, Copy, Debug, PartialEq, Eq, Structural)]
pub enum CompilerError {
    Memory(MemoryErrorKind),
    Type(TypeErrorKind),
    /// The function index space (u32) is exhausted.
    FunctionLimit,
}

} // verus!
