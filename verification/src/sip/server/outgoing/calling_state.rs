//! The first state of an outgoing call: the INVITE is in flight and no
//! final answer has arrived.

use vstd::prelude::*;

verus! {

/// Calling-state flags: whether a digest challenge was already answered
/// once, and whether this side has sent CANCEL.
#[derive(Debug, Clone, Copy, PartialEq, Eq, Structural)]
pub struct CallingState {
    pub auth_failed: bool,
    pub cancelled: bool,
}

impl Default for CallingState {
    fn default() -> (r: Self)
        ensures
            !r.auth_failed,
            !r.cancelled,
    {
        CallingState { auth_failed: false, cancelled: false }
    }
}

} // verus!
