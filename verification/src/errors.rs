//! The failures the store surfaces. Every error is returned to the caller as
//! an explicit value: nothing is logged-and-swallowed, nothing is retried.

use vstd::prelude::*;

verus! {

#[derive(Debug, Clone, Copy, PartialEq, Eq, Structural)]
pub enum StoreError {
    /// Durable storage could not be opened, created or read.
    StorageUnavailable,
    /// An append could not be committed; the log is unchanged.
    WriteFailed,
    /// Exclusive access to a shared handle could not be acquired; the
    /// resource is in an unknown state and should be treated as lost.
    LockFailure,
}

impl StoreError {
    /// A short description of the failure, for surfacing to a caller.
    pub fn describe(&self) -> (r: &'static str)
        ensures
            self is StorageUnavailable ==> r@ == "storage unavailable"@,
            self is WriteFailed ==> r@ == "write failed"@,
            self is LockFailure ==> r@ == "lock failure"@,
    {
        match self {
            StoreError::StorageUnavailable => "storage unavailable",
            StoreError::WriteFailed => "write failed",
            StoreError::LockFailure => "lock failure",
        }
    }
}

} // verus!
