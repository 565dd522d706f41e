//! Errors of the memory pool and its buffers.

use vstd::prelude::*;

verus! {

/// Error of a memory pool operation.
#[derive(Debug, Clone, Copy, PartialEq, Eq, Structural)]
pub enum FMempError {
    /// Invalid buffer.
    InvalidBuf,
    /// The allocator could not be set up.
    InitTlsfError,
    /// No memory left.
    BadMalloc,
    /// The buffer is too small for the data.
    NotEnoughSpace,
    /// The buffer's size is not a multiple of the element size.
    SizeNotAligned,
}

} // verus!
