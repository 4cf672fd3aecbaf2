//! What a synchronous arrival hook answers: the action that directs the
//! waiting call.

use vstd::prelude::*;

verus! {

/// Ring the peer and keep waiting.
#[derive(Debug, Clone, Copy, PartialEq)]
pub struct Ring {}

/// Accept the call into the given room.
#[derive(Debug, Clone, PartialEq)]
pub struct Accept {
    pub room: String,
    pub peer: String,
    pub record: bool,
}

/// Reject the call.
#[derive(Debug, Clone, Copy, PartialEq)]
pub struct End {}

/// Take no immediate action; further control arrives later.
#[derive(Debug, Clone, Copy, PartialEq)]
pub struct Continue {}

/// The hook's directive.
#[derive(Debug, Clone, PartialEq)]
pub enum Action {
    Ring(Ring),
    Accept(Accept),
    End(End),
    Continue(Continue),
}

/// The hook's whole answer.
#[derive(Debug, Clone, PartialEq)]
pub struct IncomingCallNotifyResponse {
    pub action: Option<Action>,
}

} // verus!
