//! Responses to incoming-call action requests.

use vstd::prelude::*;

verus! {

/// The ring action was performed.
#[derive(Debug, Clone, Copy, PartialEq)]
pub struct Ring {}

/// The accept action was performed.
#[derive(Debug, Clone, Copy, PartialEq)]
pub struct Accept {}

/// The end action was performed.
#[derive(Debug, Clone, Copy, PartialEq)]
pub struct End {}

/// Answer to a keep-alive probe.
#[derive(Debug, Clone, Copy, PartialEq)]
pub struct Pong {
    pub live: bool,
}

/// The action failed; the message describes why.
#[derive(Debug, Clone, PartialEq)]
pub struct Error {
    pub message: String,
}

/// The outcome of one action on an incoming call.
#[derive(Debug, Clone, PartialEq)]
pub enum Response {
    Error(Error),
    Ring(Ring),
    Accept(Accept),
    End(End),
    Pong(Pong),
}

} // verus!
