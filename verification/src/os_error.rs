//! What the operating system reported when a listener could not be bound.

use vstd::prelude::*;

verus! {

/// The kind of failure that the operating system reported.
#[derive(Debug, Clone, Copy, PartialEq, Eq, Structural)]
pub enum OsErrorKind {
    /// The address is already bound by another socket.
    AddrInUse,
    /// The address does not belong to this machine.
    AddrNotAvailable,
    /// The caller may not bind the address.
    PermissionDenied,
    /// The address could not be read as a socket address.
    InvalidInput,
    /// Any other failure.
    Other,
}

/// A failed bind, as the operating system described it.
#[derive(Debug, PartialEq, Eq)]
pub struct OsError {
    /// The kind of the failure.
    pub kind: OsErrorKind,
    /// The operating system's own error number, where it gave one.
    pub code: Option<i32>,
    /// The failure in words.
    pub message: String,
    /// The failure as the system's error value prints itself for debugging,
    /// in the pretty form: a text of one line or of several.
    pub debug: String,
}

} // verus!
