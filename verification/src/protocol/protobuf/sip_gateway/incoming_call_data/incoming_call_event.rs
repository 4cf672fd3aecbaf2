//! Events emitted by an incoming call.

use vstd::prelude::*;

pub mod sip_event;

verus! {

/// An event that arrived from the SIP side.
#[derive(Debug, Clone, Copy, PartialEq)]
pub struct SipEvent {
    pub event: Option<sip_event::Event>,
}

/// The call was answered and reached Talking.
#[derive(Debug, Clone, Copy, PartialEq)]
pub struct Accepted {}

/// The call was rejected before it was answered.
#[derive(Debug, Clone, Copy, PartialEq)]
pub struct Rejected {}

/// The call ended and its task is about to exit.
#[derive(Debug, Clone, Copy, PartialEq)]
pub struct Ended {}

/// The call failed; the message describes the failure.
#[derive(Debug, Clone, PartialEq)]
pub struct Error {
    pub message: String,
}

/// One incoming-call event.
#[derive(Debug, Clone, PartialEq)]
pub enum Event {
    Failed(Error),
    Sip(SipEvent),
    Accepted(Accepted),
    Rejected(Rejected),
    Ended(Ended),
}

} // verus!
