//! Incoming-call control surface: the hook request on arrival, the REST
//! action request, and classifiers over incoming-call events.

use vstd::prelude::*;

use crate::protocol::protobuf::sip_gateway::incoming_call_data::incoming_call_event;
use crate::protocol::protobuf::sip_gateway::incoming_call_data::incoming_call_request;
use crate::protocol::protobuf::sip_gateway::incoming_call_data::incoming_call_response;
use crate::protocol::InternalCallId;
use crate::protocol::StreamingInfo;

verus! {

/// What the gateway POSTs to a number's hook when a call arrives.
#[derive(Debug, Clone)]
pub struct HookIncomingCallRequest {
    pub call_id: InternalCallId,
    pub call_token: String,
    pub call_ws: String,
    pub from: String,
    pub to: String,
}

/// The actions a controller may request on an incoming call.
#[derive(Debug, Clone, Copy, PartialEq, Eq, Structural)]
pub enum IncomingCallAction {
    Ring,
    Accept,
    End,
}

/// A REST action request on an incoming call.
#[derive(Debug, Clone)]
pub struct IncomingCallActionRequest {
    pub action: IncomingCallAction,
    pub stream: Option<StreamingInfo>,
}

/// The empty success payload of an incoming-call action.
#[derive(Debug, Clone, PartialEq)]
pub struct IncomingCallActionResponse {}

impl IncomingCallActionRequest {
    /// Translates the REST request into a channel action. Accept needs the
    /// streaming target; without it the request is refused.
    pub fn into_action(self) -> (r: Result<incoming_call_request::Action, &'static str>)
        ensures
            match self.action {
                IncomingCallAction::Ring => r == Ok::<_, &'static str>(
                    incoming_call_request::Action::Ring(incoming_call_request::Ring {}),
                ),
                IncomingCallAction::End => r == Ok::<_, &'static str>(
                    incoming_call_request::Action::End(incoming_call_request::End {}),
                ),
                IncomingCallAction::Accept => match self.stream {
                    Some(stream) => r == Ok::<_, &'static str>(
                        incoming_call_request::Action::Accept(
                            incoming_call_request::Accept {
                                room: stream.room,
                                peer: stream.peer,
                                record: stream.record,
                            },
                        ),
                    ),
                    None => r.is_err(),
                },
            },
    {
        match self.action {
            IncomingCallAction::Ring => Ok(
                incoming_call_request::Action::Ring(incoming_call_request::Ring {}),
            ),
            IncomingCallAction::Accept => match self.stream {
                Some(stream) => Ok(
                    incoming_call_request::Action::Accept(
                        incoming_call_request::Accept {
                            room: stream.room,
                            peer: stream.peer,
                            record: stream.record,
                        },
                    ),
                ),
                None => Err("missing stream info"),
            },
            IncomingCallAction::End => Ok(
                incoming_call_request::Action::End(incoming_call_request::End {}),
            ),
        }
    }
}

impl IncomingCallActionResponse {
    /// Reads a channel response: an error response carries its message,
    /// every other response is success.
    pub fn from_response(value: incoming_call_response::Response) -> (r: Result<
        Self,
        String,
    >)
        ensures
            match value {
                incoming_call_response::Response::Error(e) => r == Err::<Self, String>(
                    e.message,
                ),
                _ => r == Ok::<Self, String>(IncomingCallActionResponse {}),
            },
    {
        match value {
            incoming_call_response::Response::Error(error) => Err(error.message),
            _ => Ok(IncomingCallActionResponse {}),
        }
    }
}

/// Whether an incoming-call event says the peer cancelled the call.
pub fn is_sip_incoming_cancelled(event: &Option<incoming_call_event::Event>) -> (r: Option<
    (),
>)
    ensures
        r.is_some() <==> (event matches Some(incoming_call_event::Event::Sip(s))
            && s.event matches Some(incoming_call_event::sip_event::Event::Cancelled(_))),
{
    match event {
        Some(incoming_call_event::Event::Sip(sip_event)) => match &sip_event.event {
            Some(incoming_call_event::sip_event::Event::Cancelled(..)) => Some(()),
            _ => None,
        },
        _ => None,
    }
}

/// Whether an incoming-call event says the call was accepted.
pub fn is_sip_incoming_accepted(event: &Option<incoming_call_event::Event>) -> (r: Option<
    (),
>)
    ensures
        r.is_some() <==> event matches Some(incoming_call_event::Event::Accepted(_)),
{
    match event {
        Some(incoming_call_event::Event::Accepted(..)) => Some(()),
        _ => None,
    }
}

} // verus!
