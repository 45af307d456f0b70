//! The error taxonomy shared by every component.

use vstd::prelude::*;

verus! {

/// Why an operation of this crate failed.
#[derive(Clone, Copy, Debug, PartialEq, Eq, Structural)]
pub enum Error {
    /// The environment does not name a usable shared-memory segment.
    Configuration,
    /// A wire message was short, malformed or out of sequence.
    Protocol,
    /// An operating-system call failed; the payload is its `errno`.
    System(i32),
    /// A caller passed a value outside the documented range.
    IllegalArgument,
    /// An operation was requested in a state that does not allow it.
    IllegalState,
    /// A once-only initializer was entered a second time.
    AlreadyInitialized,
}

} // verus!
