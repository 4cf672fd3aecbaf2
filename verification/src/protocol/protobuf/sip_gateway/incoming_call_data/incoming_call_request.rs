//! Action requests addressed to an incoming call.

use vstd::prelude::*;

verus! {

/// Send a provisional ringing response to the peer.
#[derive(Debug, Clone, Copy, PartialEq)]
pub struct Ring {}

/// Accept the call, attaching its media to the given room and peer.
#[derive(Debug, Clone, PartialEq)]
pub struct Accept {
    pub room: String,
    pub peer: String,
    pub record: bool,
}

/// End the call.
#[derive(Debug, Clone, Copy, PartialEq)]
pub struct End {}

/// Keep-alive probe from a remote subscriber.
#[derive(Debug, Clone, Copy, PartialEq)]
pub struct Ping {}

/// One action on an incoming call.
#[derive(Debug, Clone, PartialEq)]
pub enum Action {
    Ring(Ring),
    Accept(Accept),
    End(End),
    Ping(Ping),
}

} // verus!
