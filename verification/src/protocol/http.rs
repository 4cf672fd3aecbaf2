//! WebSocket control-plane payloads: action requests with a client-chosen
//! tag and the matching responses.

use vstd::prelude::*;

use crate::protocol::StreamingInfo;

verus! {

/// The query string of a per-call WebSocket upgrade: the call token.
#[derive(Debug, Clone)]
pub struct WsQuery {
    pub token: String,
}

/// The actions a WebSocket controller may request.
#[derive(Debug, Clone, Copy, PartialEq, Eq, Structural)]
pub enum CallAction {
    Trying,
    Ring,
    Accept,
    Reject,
}

/// One action request from a WebSocket client.
#[derive(Debug, Clone)]
pub struct CallActionRequest {
    pub action: CallAction,
    pub stream: Option<StreamingInfo>,
}

/// The empty success payload of a WebSocket action.
#[derive(Debug, Clone, PartialEq)]
pub struct CallActionResponse {}

/// A tagged WebSocket action request.
#[derive(Debug, Clone)]
pub struct WsActionRequest {
    pub request_id: u32,
    pub request: CallActionRequest,
}

/// The reply to a tagged WebSocket request: it echoes the tag so the
/// client can match it.
#[derive(Debug, Clone)]
pub struct WsActionResponse {
    pub request_id: Option<u32>,
    pub success: bool,
    pub message: Option<String>,
    pub response: Option<CallActionResponse>,
}

impl WsActionResponse {
    /// A success reply for the request with tag `request_id`.
    pub fn ok(request_id: u32, response: CallActionResponse) -> (r: Self)
        ensures
            r.request_id == Some(request_id),
            r.success,
            r.message is None,
            r.response == Some(response),
    {
        WsActionResponse { request_id: Some(request_id), success: true, message: None, response: Some(response) }
    }

    /// A failure reply for the request with tag `request_id`.
    pub fn failed(request_id: u32, message: String) -> (r: Self)
        ensures
            r.request_id == Some(request_id),
            !r.success,
            r.message == Some(message),
            r.response is None,
    {
        WsActionResponse { request_id: Some(request_id), success: false, message: Some(message), response: None }
    }
}

} // verus!
