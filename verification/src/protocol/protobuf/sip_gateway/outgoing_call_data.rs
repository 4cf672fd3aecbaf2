//! Messages on an outgoing call's channel: events, action requests and
//! their responses.

use vstd::prelude::*;

pub mod outgoing_call_event;
pub mod outgoing_call_request;
pub mod outgoing_call_response;

verus! {

/// One event emitted by an outgoing call.
#[derive(Debug, Clone, PartialEq)]
pub struct OutgoingCallEvent {
    pub event: Option<outgoing_call_event::Event>,
}

/// An action request addressed to an outgoing call, tagged so the response
/// can be matched to it.
#[derive(Debug, Clone, Copy, PartialEq)]
pub struct OutgoingCallRequest {
    pub req_id: u32,
    pub action: Option<outgoing_call_request::Action>,
}

/// The response to one action request, carrying the request's tag.
#[derive(Debug, Clone, PartialEq)]
pub struct OutgoingCallResponse {
    pub req_id: u32,
    pub response: Option<outgoing_call_response::Response>,
}

/// Anything that can travel on an outgoing call's channel.
#[derive(Debug, Clone, PartialEq)]
pub enum Data {
    Event(OutgoingCallEvent),
    Request(OutgoingCallRequest),
    Response(OutgoingCallResponse),
}

} // verus!
