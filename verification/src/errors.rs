//! The error taxonomy of the handle system.

use vstd::prelude::*;

verus! {

/// Why an attempt to reach a resource through a handle failed.
///
/// Both values are ordinary results handed to the immediate caller: neither
/// is retried nor suppressed by the library itself.
#[derive(Clone, Copy, Debug, PartialEq, Eq, Structural)]
pub enum HandleErr {
    /// The native object behind the handle no longer exists. Callers
    /// typically skip the intended action: the device or output is gone.
    AlreadyDropped,
    /// Another exclusive access to the same resource is still outstanding.
    /// Callers should treat this as a logic error in their own code, not as
    /// a transient condition worth retrying.
    AlreadyBorrowed,
}

/// The result of every fallible handle operation.
pub type HandleResult<T> = Result<T, HandleErr>;

impl HandleErr {
    /// A short human-readable description of the error.
    pub fn describe(&self) -> (r: &'static str)
        ensures
            self is AlreadyDropped ==> r@ == "resource already dropped"@,
            self is AlreadyBorrowed ==> r@ == "resource already borrowed"@,
    {
        match self {
            HandleErr::AlreadyDropped => "resource already dropped",
            HandleErr::AlreadyBorrowed => "resource already borrowed",
        }
    }
}

} // verus!
