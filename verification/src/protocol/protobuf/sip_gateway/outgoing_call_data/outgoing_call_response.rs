//! Responses to outgoing-call action requests.

use vstd::prelude::*;

verus! {

/// The end action was performed.
#[derive(Debug, Clone, Copy, PartialEq)]
pub struct End {}

/// The action failed; the message describes why.
#[derive(Debug, Clone, PartialEq)]
pub struct Error {
    pub message: String,
}

/// The outcome of one action on an outgoing call.
#[derive(Debug, Clone, PartialEq)]
pub enum Response {
    Error(Error),
    End(End),
}

} // verus!
