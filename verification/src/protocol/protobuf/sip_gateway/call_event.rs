//! The payload of a call-channel event.

use vstd::prelude::*;

use crate::protocol::protobuf::sip_gateway::incoming_call_data::IncomingCallEvent;
use crate::protocol::protobuf::sip_gateway::outgoing_call_data::OutgoingCallEvent;
use crate::protocol::protobuf::sip_gateway::IncomingCallNotify;

verus! {

/// Either a per-call event of one of the two directions, or an app-scoped
/// notification.
#[derive(Debug, Clone, PartialEq)]
pub enum Event {
    Incoming(IncomingCallEvent),
    Outgoing(OutgoingCallEvent),
    Notify(IncomingCallNotify),
}

} // verus!
