//! What can go wrong in a call into the tracker.

use vstd::prelude::*;

verus! {

/// Why a call was refused. A refused call changes nothing.
#[derive(Clone, Copy, Debug, PartialEq, Eq, Structural)]
pub enum TrackerError {
    /// The call named an issue that does not exist.
    NotFound,
    /// The call gave an empty name or an empty comment.
    Validation,
    /// The bytes are not a snapshot of a tracker.
    Format,
}

} // verus!
