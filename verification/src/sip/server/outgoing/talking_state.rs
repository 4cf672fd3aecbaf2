//! The established state of an outgoing call.

use vstd::prelude::*;

verus! {

/// Talking-state flag: whether a Terminated event is queued for the next
/// receive, after this side ended the session.
#[derive(Debug, Clone, Copy, PartialEq, Eq, Structural)]
pub struct TalkingState {
    pub terminated_queued: bool,
}

impl TalkingState {
    pub fn new() -> (r: Self)
        ensures
            !r.terminated_queued,
    {
        TalkingState { terminated_queued: false }
    }
}

} // verus!
