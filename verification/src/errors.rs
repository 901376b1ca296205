//! The one way in which an operation on the shared configuration can fail.

use vstd::prelude::*;
use vstd::string::*;

verus! {

/// The lock that guards the shared configuration is poisoned: a holder
/// panicked while it had the lock, so the stored pair can no longer be trusted.
#[derive(Clone, Copy, Debug, PartialEq, Eq, Structural)]
pub struct LockError;

impl LockError {
    /// The text that describes this failure.
    pub open spec fn text() -> Seq<char> {
        "logging configuration lock is poisoned"@
    }

    /// A description for people.
    pub fn message(&self) -> (r: String)
        ensures
            r@ == Self::text(),
    {
        "logging configuration lock is poisoned".to_owned()
    }
}

} // verus!
