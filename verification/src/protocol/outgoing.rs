//! Outgoing-call control surface: the create-call request and the REST
//! action request.

use vstd::prelude::*;

use crate::protocol::address_book::HookContentType;
use crate::protocol::protobuf::sip_gateway::outgoing_call_data::outgoing_call_request;
use crate::protocol::protobuf::sip_gateway::outgoing_call_data::outgoing_call_response;
use crate::protocol::SipAuth;
use crate::protocol::StreamingInfo;

verus! {

/// A request to place an outbound call.
#[derive(Debug, Clone)]
pub struct CreateCallRequest {
    pub sip_server: String,
    pub sip_proxy: Option<String>,
    pub sip_auth: Option<SipAuth>,
    pub from_number: String,
    pub to_number: String,
    pub hook: String,
    pub hook_content_type: HookContentType,
    pub streaming: StreamingInfo,
}

/// What a successful create-call returns: the call's identity, its token
/// and the WebSocket path to subscribe to it.
#[derive(Debug, Clone, PartialEq)]
pub struct CreateCallResponse {
    pub call_id: String,
    pub call_token: String,
    pub call_ws: String,
}

/// The actions a controller may request on an outgoing call.
#[derive(Debug, Clone, Copy, PartialEq, Eq, Structural)]
pub enum OutgoingCallAction {
    End,
}

/// A REST action request on an outgoing call.
#[derive(Debug, Clone)]
pub struct OutgoingCallActionRequest {
    pub action: OutgoingCallAction,
    pub stream: Option<StreamingInfo>,
}

/// The empty success payload of an outgoing-call action.
#[derive(Debug, Clone, PartialEq)]
pub struct OutgoingCallActionResponse {}

impl OutgoingCallActionRequest {
    /// Translates the REST request into a channel action.
    pub fn into_action(self) -> (r: Result<outgoing_call_request::Action, &'static str>)
        ensures
            r == Ok::<_, &'static str>(
                outgoing_call_request::Action::End(outgoing_call_request::End {}),
            ),
    {
        match self.action {
            OutgoingCallAction::End => Ok(
                outgoing_call_request::Action::End(outgoing_call_request::End {}),
            ),
        }
    }
}

impl OutgoingCallActionResponse {
    /// Reads a channel response: an error response carries its message,
    /// an end response is success.
    pub fn from_response(value: outgoing_call_response::Response) -> (r: Result<
        Self,
        String,
    >)
        ensures
            match value {
                outgoing_call_response::Response::Error(e) => r == Err::<Self, String>(
                    e.message,
                ),
                outgoing_call_response::Response::End(_) => r == Ok::<Self, String>(
                    OutgoingCallActionResponse {},
                ),
            },
    {
        match value {
            outgoing_call_response::Response::Error(error) => Err(error.message),
            outgoing_call_response::Response::End(_) => Ok(OutgoingCallActionResponse {}),
        }
    }
}

} // verus!
