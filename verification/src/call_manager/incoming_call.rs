//! The incoming-call task's decision pieces: the handle the manager
//! keeps, the dispatch of the arrival hook's answer, answering channel
//! requests under their tag, and the events the task publishes.

use vstd::prelude::*;

pub mod notify;

use crate::protocol::protobuf::sip_gateway::call_event;
use crate::protocol::protobuf::sip_gateway::incoming_call_data::incoming_call_event;
use crate::protocol::protobuf::sip_gateway::incoming_call_data::incoming_call_notify_response;
use crate::protocol::protobuf::sip_gateway::incoming_call_data::IncomingCallEvent;
use crate::protocol::protobuf::sip_gateway::incoming_call_data::IncomingCallResponse;
use crate::protocol::protobuf::sip_gateway::incoming_call_data::incoming_call_response;
use crate::protocol::protobuf::sip_gateway::incoming_call_notify;
use crate::protocol::protobuf::sip_gateway::CallEvent;
use crate::protocol::protobuf::sip_gateway::IncomingCallNotify;
use crate::protocol::InternalCallId;
use crate::protocol::StreamingInfo;

verus! {

/// The handle the manager keeps while an incoming call's task runs.
#[derive(Debug)]
pub struct IncomingCall {}

/// What the task does with the arrival hook's answer.
#[derive(Debug, Clone, PartialEq)]
pub enum ArrivalPlan {
    /// Send 180 Ringing and keep waiting.
    Ring,
    /// Create the media answer for this stream and accept.
    Accept(StreamingInfo),
    /// Respond 486 and finish.
    End,
    /// Do nothing; further control arrives later.
    Stay,
    /// The answer carried no action: reject the call as unacceptable.
    Invalid,
}

/// Turns the arrival hook's answer into the task's plan, exactly as the
/// answer directs.
pub fn plan_arrival(response: incoming_call_notify_response::IncomingCallNotifyResponse)
    -> (r: ArrivalPlan)
    ensures
        match response.action {
            Some(incoming_call_notify_response::Action::Ring(_)) => r == ArrivalPlan::Ring,
            Some(incoming_call_notify_response::Action::Accept(a)) => (r matches
                ArrivalPlan::Accept(s) && s.room == a.room && s.peer == a.peer && s.record
                == a.record),
            Some(incoming_call_notify_response::Action::End(_)) => r == ArrivalPlan::End,
            Some(incoming_call_notify_response::Action::Continue(_)) => r
                == ArrivalPlan::Stay,
            None => r == ArrivalPlan::Invalid,
        },
{
    match response.action {
        Some(incoming_call_notify_response::Action::Ring(_)) => ArrivalPlan::Ring,
        Some(incoming_call_notify_response::Action::Accept(a)) => ArrivalPlan::Accept(
            StreamingInfo { room: a.room, peer: a.peer, record: a.record },
        ),
        Some(incoming_call_notify_response::Action::End(_)) => ArrivalPlan::End,
        Some(incoming_call_notify_response::Action::Continue(_)) => ArrivalPlan::Stay,
        None => ArrivalPlan::Invalid,
    }
}

/// Wraps a notify event for the app-scoped channel, stamped with the
/// clock reading `now_ms`.
pub fn build_call_notify(
    call_id: &InternalCallId,
    now_ms: u64,
    event: incoming_call_notify::Event,
) -> (r: CallEvent)
    ensures
        r.call_id@ == call_id@,
        r.timestamp == now_ms,
        (r.event matches Some(call_event::Event::Notify(n)) && n.call_id@ == call_id@
            && n.event == Some(event)),
{
    CallEvent {
        call_id: call_id.to_text(),
        timestamp: now_ms,
        event: Some(
            call_event::Event::Notify(
                IncomingCallNotify { call_id: call_id.to_text(), event: Some(event) },
            ),
        ),
    }
}

/// The notify event for a call the peer cancelled.
pub fn build_call_notify_cancel(
    call_id: &InternalCallId,
    from: &str,
    to: &str,
    now_ms: u64,
) -> (r: CallEvent)
    ensures
        r.call_id@ == call_id@,
        r.timestamp == now_ms,
        (r.event matches Some(call_event::Event::Notify(n)) && n.call_id@ == call_id@
            && (n.event matches Some(incoming_call_notify::Event::Cancelled(c))
            && c.call_from@ == from@ && c.call_to@ == to@)),
{
    build_call_notify(
        call_id,
        now_ms,
        incoming_call_notify::Event::Cancelled(
            incoming_call_notify::CallCancelled {
                call_from: from.to_owned(),
                call_to: to.to_owned(),
            },
        ),
    )
}

/// The notify event for a call a controller rejected.
pub fn build_call_notify_reject(
    call_id: &InternalCallId,
    from: &str,
    to: &str,
    now_ms: u64,
) -> (r: CallEvent)
    ensures
        r.call_id@ == call_id@,
        r.timestamp == now_ms,
        (r.event matches Some(call_event::Event::Notify(n)) && n.call_id@ == call_id@
            && (n.event matches Some(incoming_call_notify::Event::Rejected(c))
            && c.call_from@ == from@ && c.call_to@ == to@)),
{
    build_call_notify(
        call_id,
        now_ms,
        incoming_call_notify::Event::Rejected(
            incoming_call_notify::CallRejected {
                call_from: from.to_owned(),
                call_to: to.to_owned(),
            },
        ),
    )
}

/// The notify event for a call a controller accepted.
pub fn build_call_notify_accept(
    call_id: &InternalCallId,
    from: &str,
    to: &str,
    now_ms: u64,
) -> (r: CallEvent)
    ensures
        r.call_id@ == call_id@,
        r.timestamp == now_ms,
        (r.event matches Some(call_event::Event::Notify(n)) && n.call_id@ == call_id@
            && (n.event matches Some(incoming_call_notify::Event::Accepted(c))
            && c.call_from@ == from@ && c.call_to@ == to@)),
{
    build_call_notify(
        call_id,
        now_ms,
        incoming_call_notify::Event::Accepted(
            incoming_call_notify::CallAccepted {
                call_from: from.to_owned(),
                call_to: to.to_owned(),
            },
        ),
    )
}

/// Wraps one engine event for publication, stamped with the clock
/// reading `now_ms`.
pub fn build_call_event(call_id: &InternalCallId, now_ms: u64, event: IncomingCallEvent)
    -> (r: CallEvent)
    ensures
        r.call_id@ == call_id@,
        r.timestamp == now_ms,
        r.event == Some(call_event::Event::Incoming(event)),
{
    CallEvent {
        call_id: call_id.to_text(),
        timestamp: now_ms,
        event: Some(call_event::Event::Incoming(event)),
    }
}

/// The event the task publishes when it exits.
pub fn build_incoming_ended_event() -> (r: IncomingCallEvent)
    ensures
        r.event == Some(
            incoming_call_event::Event::Ended(incoming_call_event::Ended {}),
        ),
{
    IncomingCallEvent {
        event: Some(incoming_call_event::Event::Ended(incoming_call_event::Ended {})),
    }
}

/// The event the task publishes when the engine failed.
pub fn build_incoming_error_event(message: String) -> (r: IncomingCallEvent)
    ensures
        (r.event matches Some(incoming_call_event::Event::Failed(e)) && e.message
            == message),
{
    IncomingCallEvent {
        event: Some(
            incoming_call_event::Event::Failed(incoming_call_event::Error { message }),
        ),
    }
}

/// Answers one channel request: the response always carries the same tag
/// as the request it answers.
pub fn answer_incoming_request(req_id: u32, response: incoming_call_response::Response)
    -> (r: IncomingCallResponse)
    ensures
        r.req_id == req_id,
        r.response == Some(response),
{
    IncomingCallResponse { req_id, response: Some(response) }
}

} // verus!
