//! App-scoped incoming-call notification payloads.

use vstd::prelude::*;

verus! {

/// A new call arrived for one of the app's numbers.
#[derive(Debug, Clone, PartialEq)]
pub struct CallArrived {
    pub call_token: String,
    pub call_ws: String,
    pub call_from: String,
    pub call_to: String,
}

/// The peer cancelled the call before it was answered.
#[derive(Debug, Clone, PartialEq)]
pub struct CallCancelled {
    pub call_from: String,
    pub call_to: String,
}

/// The call was rejected by a controller.
#[derive(Debug, Clone, PartialEq)]
pub struct CallRejected {
    pub call_from: String,
    pub call_to: String,
}

/// The call was accepted by a controller.
#[derive(Debug, Clone, PartialEq)]
pub struct CallAccepted {
    pub call_from: String,
    pub call_to: String,
}

/// The notification payload.
#[derive(Debug, Clone, PartialEq)]
pub enum Event {
    Arrived(CallArrived),
    Cancelled(CallCancelled),
    Rejected(CallRejected),
    Accepted(CallAccepted),
}

} // verus!
