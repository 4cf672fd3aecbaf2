//! The early-dialog state of an outgoing call: a reliable provisional
//! response opened an early dialog that can carry SDP.

use vstd::prelude::*;

verus! {

/// Early-state flag: whether this side has sent CANCEL.
#[derive(Debug, Clone, Copy, PartialEq, Eq, Structural)]
pub struct EarlyState {
    pub cancelled: bool,
}

impl EarlyState {
    pub fn new() -> (r: Self)
        ensures
            !r.cancelled,
    {
        EarlyState { cancelled: false }
    }
}

} // verus!
