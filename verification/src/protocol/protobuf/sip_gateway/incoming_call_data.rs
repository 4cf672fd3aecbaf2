//! Messages on an incoming call's channel: events, action requests and
//! their responses.

use vstd::prelude::*;

pub mod incoming_call_event;
pub mod incoming_call_notify_response;
pub mod incoming_call_request;
pub mod incoming_call_response;

verus! {

/// One event emitted by an incoming call.
#[derive(Debug, Clone, PartialEq)]
pub struct IncomingCallEvent {
    pub event: Option<incoming_call_event::Event>,
}

/// An action request addressed to an incoming call, tagged so the response
/// can be matched to it.
#[derive(Debug, Clone, PartialEq)]
pub struct IncomingCallRequest {
    pub req_id: u32,
    pub action: Option<incoming_call_request::Action>,
}

/// The response to one action request, carrying the request's tag.
#[derive(Debug, Clone, PartialEq)]
pub struct IncomingCallResponse {
    pub req_id: u32,
    pub response: Option<incoming_call_response::Response>,
}

/// Anything that can travel on an incoming call's channel.
#[derive(Debug, Clone, PartialEq)]
pub enum Data {
    Event(IncomingCallEvent),
    Request(IncomingCallRequest),
    Response(IncomingCallResponse),
}

} // verus!
