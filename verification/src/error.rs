//! The failures a descriptor operation can report.

use vstd::prelude::*;

verus! {

/// Why a descriptor operation failed.
///
/// Every public operation reports failure immediately and leaves the
/// descriptor in its prior state; nothing is retried.
#[derive(Clone, Copy, Debug, PartialEq, Eq, Structural)]
pub enum MethodError {
    /// A supplied name holds a character that the host library's
    /// terminated string representation cannot carry.
    Encoding,
    /// The loaded host library does not support the requested
    /// registration (multi-prime key generation on an older build).
    Unsupported,
}

} // verus!
