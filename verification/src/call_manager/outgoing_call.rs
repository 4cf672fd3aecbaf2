//! The outgoing-call task's decision pieces: the handle the manager
//! keeps, answering channel requests under their tag, and the events the
//! task publishes around the engine's own.

use vstd::prelude::*;

use crate::protocol::protobuf::sip_gateway::call_event;
use crate::protocol::protobuf::sip_gateway::outgoing_call_data::outgoing_call_event;
use crate::protocol::protobuf::sip_gateway::outgoing_call_data::outgoing_call_response;
use crate::protocol::protobuf::sip_gateway::outgoing_call_data::OutgoingCallEvent;
use crate::protocol::protobuf::sip_gateway::outgoing_call_data::OutgoingCallResponse;
use crate::protocol::protobuf::sip_gateway::CallEvent;
use crate::protocol::protobuf::sip_gateway::CallEventV;
use crate::protocol::InternalCallId;

verus! {

/// The handle the manager keeps while an outgoing call's task runs.
#[derive(Debug)]
pub struct OutgoingCall {}

/// The envelope of one outgoing-call event on the call's channel.
pub open spec fn outgoing_call_event_of(
    call_id: Seq<char>,
    now_ms: u64,
    event: OutgoingCallEvent,
) -> CallEventV {
    CallEventV {
        call_id,
        timestamp: now_ms,
        event: Some(call_event::Event::Outgoing(event)),
    }
}

/// Wraps one engine event for publication, stamped with the clock
/// reading `now_ms`.
pub fn build_outgoing_call_event(
    call_id: &InternalCallId,
    now_ms: u64,
    event: OutgoingCallEvent,
) -> (r: CallEvent)
    ensures
        r@ == outgoing_call_event_of(call_id@, now_ms, event),
{
    CallEvent {
        call_id: call_id.to_text(),
        timestamp: now_ms,
        event: Some(call_event::Event::Outgoing(event)),
    }
}

/// The event the task publishes when it exits.
pub fn build_outgoing_ended_event() -> (r: OutgoingCallEvent)
    ensures
        r.event == Some(
            outgoing_call_event::Event::Ended(outgoing_call_event::Ended {}),
        ),
{
    OutgoingCallEvent {
        event: Some(outgoing_call_event::Event::Ended(outgoing_call_event::Ended {})),
    }
}

/// The event the task publishes when the engine failed.
pub fn build_outgoing_error_event(message: String) -> (r: OutgoingCallEvent)
    ensures
        (r.event matches Some(outgoing_call_event::Event::Failed(e)) && e.message == message),
{
    OutgoingCallEvent {
        event: Some(
            outgoing_call_event::Event::Failed(outgoing_call_event::Error { message }),
        ),
    }
}

/// Answers one channel request: the response always carries the same tag
/// as the request it answers.
pub fn answer_outgoing_request(req_id: u32, response: outgoing_call_response::Response)
    -> (r: OutgoingCallResponse)
    ensures
        r.req_id == req_id,
        r.response == Some(response),
{
    OutgoingCallResponse { req_id, response: Some(response) }
}

/// Law: events stamped by a clock that does not run backwards carry
/// non-decreasing timestamps, in the order they were built.
pub proof fn lemma_event_timestamps_monotonic(
    call_id: Seq<char>,
    t1: u64,
    t2: u64,
    e1: OutgoingCallEvent,
    e2: OutgoingCallEvent,
)
    requires
        t1 <= t2,
    ensures
        outgoing_call_event_of(call_id, t1, e1).timestamp <= outgoing_call_event_of(
            call_id,
            t2,
            e2,
        ).timestamp,
{
}

} // verus!
