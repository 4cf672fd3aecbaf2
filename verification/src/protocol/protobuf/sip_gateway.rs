//! Top-level call messages: the timestamped per-call event envelope and the
//! app-scoped incoming-call notification.

use vstd::prelude::*;

pub mod call_event;
pub mod incoming_call_data;
pub mod incoming_call_notify;
pub mod outgoing_call_data;

verus! {

/// One event on a call's channel: which call, when, and what happened.
#[derive(Debug, Clone, PartialEq)]
pub struct CallEvent {
    pub call_id: String,
    pub timestamp: u64,
    pub event: Option<call_event::Event>,
}

/// The mathematical shape of a call-channel event.
pub ghost struct CallEventV {
    pub call_id: Seq<char>,
    pub timestamp: u64,
    pub event: Option<call_event::Event>,
}

impl View for CallEvent {
    type V = CallEventV;

    open spec fn view(&self) -> CallEventV {
        CallEventV { call_id: self.call_id@, timestamp: self.timestamp, event: self.event }
    }
}

/// An app-scoped notification that a call arrived, was accepted, cancelled
/// or rejected.
#[derive(Debug, Clone, PartialEq)]
pub struct IncomingCallNotify {
    pub call_id: String,
    pub event: Option<incoming_call_notify::Event>,
}

/// The data stream of one incoming call.
#[derive(Debug, Clone, PartialEq)]
pub struct IncomingCallData {
    pub data: Option<incoming_call_data::Data>,
}

/// The data stream of one outgoing call.
#[derive(Debug, Clone, PartialEq)]
pub struct OutgoingCallData {
    pub data: Option<outgoing_call_data::Data>,
}

} // verus!
