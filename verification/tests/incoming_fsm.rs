//! The incoming-call engine: the accept path, the reject path, the
//! peer's cancel, and state guards.

use sip_gateway::protocol::address_book::IpAddress;
use sip_gateway::protocol::protobuf::sip_gateway::incoming_call_data::incoming_call_event;
use sip_gateway::protocol::protobuf::sip_gateway::incoming_call_data::incoming_call_event::sip_event;
use sip_gateway::protocol::protobuf::sip_gateway::incoming_call_data::incoming_call_notify_response;
use sip_gateway::call_manager::incoming_call::plan_arrival;
use sip_gateway::call_manager::incoming_call::ArrivalPlan;
use sip_gateway::sip::server::incoming::SipIncomingAction;
use sip_gateway::sip::server::incoming::SipIncomingCall;
use sip_gateway::sip::server::incoming::SipIncomingCallOut;
use sip_gateway::sip::server::incoming::SipIncomingInput;
use sip_gateway::sip::server::outgoing::SessionEvent;

fn remote() -> IpAddress {
    IpAddress { bits: 0x0a000005, v6: false }
}

fn new_call() -> SipIncomingCall {
    SipIncomingCall::new(remote(), "+1999".to_owned(), "+1555".to_owned())
}

#[test]
fn trying_then_ringing_in_wait() {
    let mut call = new_call();
    assert_eq!(
        call.send_trying(),
        Ok(SipIncomingAction::RespondProvisional { code: 100 })
    );
    assert_eq!(
        call.send_ringing(),
        Ok(SipIncomingAction::RespondProvisional { code: 180 })
    );
}

#[test]
fn accept_path_reaches_talking() {
    let mut call = new_call();
    assert_eq!(
        call.send_trying(),
        Ok(SipIncomingAction::RespondProvisional { code: 100 })
    );
    assert_eq!(call.accept(), Ok(SipIncomingAction::RespondSuccessWithSdp));
    assert!(call.has_queued());
    let out = call.recv(SipIncomingInput::Queued);
    match out {
        Some(SipIncomingCallOut::Event(e)) => {
            assert!(matches!(
                e.event,
                Some(incoming_call_event::Event::Accepted(_))
            ));
        },
        other => panic!("expected the accepted event, got {:?}", other),
    }
    // In Talking, the control commands are refused ...
    assert!(call.send_trying().is_err());
    assert!(call.send_ringing().is_err());
    assert!(call.accept().is_err());
    // ... and the peer's BYE ends the call.
    let out = call.recv(SipIncomingInput::Session(SessionEvent::Bye));
    match out {
        Some(SipIncomingCallOut::Event(e)) => match e.event {
            Some(incoming_call_event::Event::Sip(s)) => {
                assert!(matches!(s.event, Some(sip_event::Event::Bye(_))));
            },
            other => panic!("expected a SIP event, got {:?}", other),
        },
        other => panic!("expected an event, got {:?}", other),
    }
    assert_eq!(call.recv(SipIncomingInput::Session(SessionEvent::Terminated)), None);
}

#[test]
fn reject_path_sends_486_then_exits() {
    let mut call = new_call();
    assert_eq!(call.end(), Ok(SipIncomingAction::RespondFailure { code: 486 }));
    let out = call.recv(SipIncomingInput::Queued);
    match out {
        Some(SipIncomingCallOut::Event(e)) => {
            assert!(matches!(
                e.event,
                Some(incoming_call_event::Event::Rejected(_))
            ));
        },
        other => panic!("expected the rejected event, got {:?}", other),
    }
    assert_eq!(call.recv(SipIncomingInput::Queued), None);
    // After the final response, no further command is accepted in Wait.
    assert!(call.send_ringing().is_err());
}

#[test]
fn peer_cancel_emits_event_then_exits() {
    let mut call = new_call();
    let out = call.recv(SipIncomingInput::Cancelled);
    match out {
        Some(SipIncomingCallOut::Event(e)) => match e.event {
            Some(incoming_call_event::Event::Sip(s)) => {
                assert!(matches!(s.event, Some(sip_event::Event::Cancelled(_))));
            },
            other => panic!("expected a SIP event, got {:?}", other),
        },
        other => panic!("expected an event, got {:?}", other),
    }
    assert_eq!(call.recv(SipIncomingInput::Queued), None);
}

#[test]
fn validate_failure_responds_488() {
    let call = new_call();
    assert_eq!(
        call.kill_because_validate_failed(),
        SipIncomingAction::RespondFailure { code: 488 }
    );
}

#[test]
fn arrival_plans_follow_the_hook_answer() {
    let ring = incoming_call_notify_response::IncomingCallNotifyResponse {
        action: Some(incoming_call_notify_response::Action::Ring(
            incoming_call_notify_response::Ring {},
        )),
    };
    assert_eq!(plan_arrival(ring), ArrivalPlan::Ring);

    let accept = incoming_call_notify_response::IncomingCallNotifyResponse {
        action: Some(incoming_call_notify_response::Action::Accept(
            incoming_call_notify_response::Accept {
                room: "r".to_owned(),
                peer: "p".to_owned(),
                record: false,
            },
        )),
    };
    match plan_arrival(accept) {
        ArrivalPlan::Accept(stream) => {
            assert_eq!(stream.room, "r");
            assert_eq!(stream.peer, "p");
            assert!(!stream.record);
        },
        other => panic!("expected an accept plan, got {:?}", other),
    }

    let end = incoming_call_notify_response::IncomingCallNotifyResponse {
        action: Some(incoming_call_notify_response::Action::End(
            incoming_call_notify_response::End {},
        )),
    };
    assert_eq!(plan_arrival(end), ArrivalPlan::End);

    let stay = incoming_call_notify_response::IncomingCallNotifyResponse {
        action: Some(incoming_call_notify_response::Action::Continue(
            incoming_call_notify_response::Continue {},
        )),
    };
    assert_eq!(plan_arrival(stay), ArrivalPlan::Stay);

    let invalid = incoming_call_notify_response::IncomingCallNotifyResponse { action: None };
    assert_eq!(plan_arrival(invalid), ArrivalPlan::Invalid);
}
