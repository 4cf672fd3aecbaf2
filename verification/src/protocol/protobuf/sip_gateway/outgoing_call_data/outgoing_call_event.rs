//! Events emitted by an outgoing call.

use vstd::prelude::*;

pub mod sip_event;

verus! {

/// An event that arrived from the SIP side.
#[derive(Debug, Clone, Copy, PartialEq)]
pub struct SipEvent {
    pub event: Option<sip_event::Event>,
}

/// The caller's CANCEL took effect.
#[derive(Debug, Clone, Copy, PartialEq)]
pub struct Cancelled {}

/// The established session was terminated by this side.
#[derive(Debug, Clone, Copy, PartialEq)]
pub struct Terminated {}

/// The call ended and its task is about to exit.
#[derive(Debug, Clone, Copy, PartialEq)]
pub struct Ended {}

/// The call failed; the message describes the failure.
#[derive(Debug, Clone, PartialEq)]
pub struct Error {
    pub message: String,
}

/// One outgoing-call event.
#[derive(Debug, Clone, PartialEq)]
pub enum Event {
    Failed(Error),
    Sip(SipEvent),
    Cancelled(Cancelled),
    Terminated(Terminated),
    Ended(Ended),
}

} // verus!
