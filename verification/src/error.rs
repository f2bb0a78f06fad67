//! Error values surfaced by clock and replica operations.
//!
//! All failures are reported to the caller as explicit results; none is
//! recovered from silently, since tolerating a length mismatch or an
//! invalid owner would corrupt the causal-order invariants.

use vstd::prelude::*;

verus! {

/// Everything that can go wrong in this library.
#[derive(Clone, Copy, Debug, PartialEq, Eq, Structural)]
pub enum Error {
    /// The owner index handed to a clock or replica constructor is not
    /// within the process count.
    InvalidOwner,
    /// A process slot index lies outside the clock's length.
    IndexOutOfRange,
    /// Two clocks built for different process counts were merged or
    /// compared; this is never tolerated by truncation or padding.
    LengthMismatch,
    /// A read or comparison named a key that the replica never stored.
    KeyNotFound,
}

} // verus!
