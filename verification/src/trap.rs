//! The single abnormal-termination signal of a guest call.
use vstd::prelude::*;

verus! {

/// Why a guest call was aborted before the host function ran.
#[derive(Clone, Copy, Debug, PartialEq, Eq, Structural)]
pub enum Trap {
    /// A pointer and length pair addressed bytes outside guest memory, or
    /// their sum left the address space.
    OutOfBounds,
    /// A byte range that should hold text was not valid UTF-8.
    InvalidUtf8,
}

} // verus!
