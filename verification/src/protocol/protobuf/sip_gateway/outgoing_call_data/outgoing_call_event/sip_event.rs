//! SIP-side events of an outgoing call.

use vstd::prelude::*;

verus! {

/// A non-reliable provisional response.
#[derive(Debug, Clone, Copy, PartialEq)]
pub struct Provisional {
    pub code: u32,
}

/// A reliable provisional response opened an early dialog.
#[derive(Debug, Clone, Copy, PartialEq)]
pub struct Early {
    pub code: u32,
}

/// A success response established the session.
#[derive(Debug, Clone, Copy, PartialEq)]
pub struct Accepted {
    pub code: u32,
}

/// A failure response.
#[derive(Debug, Clone, Copy, PartialEq)]
pub struct Failure {
    pub code: u32,
}

/// The peer hung up with BYE.
#[derive(Debug, Clone, Copy, PartialEq)]
pub struct Bye {}

/// One SIP-side event.
#[derive(Debug, Clone, Copy, PartialEq)]
pub enum Event {
    Provisional(Provisional),
    Early(Early),
    Accepted(Accepted),
    Failure(Failure),
    Bye(Bye),
}

} // verus!
