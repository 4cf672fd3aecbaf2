//! The outgoing-call engine: auth retry, cancellation, the happy path.

use sip_gateway::protocol::protobuf::sip_gateway::outgoing_call_data::outgoing_call_event;
use sip_gateway::protocol::protobuf::sip_gateway::outgoing_call_data::outgoing_call_event::sip_event;
use sip_gateway::protocol::protobuf::sip_gateway::outgoing_call_data::OutgoingCallEvent;
use sip_gateway::sip::server::outgoing::build_sip_event;
use sip_gateway::sip::server::outgoing::InitiatorResponse;
use sip_gateway::sip::server::outgoing::SessionEvent;
use sip_gateway::sip::server::outgoing::SipOutgoingAction;
use sip_gateway::sip::server::outgoing::SipOutgoingCall;
use sip_gateway::sip::server::outgoing::SipOutgoingCallOut;
use sip_gateway::sip::server::outgoing::SipOutgoingEndAction;
use sip_gateway::sip::server::outgoing::SipOutgoingInput;

fn event_of(out: Option<SipOutgoingCallOut>) -> OutgoingCallEvent {
    match out {
        Some(SipOutgoingCallOut::Event(e)) => e,
        other => panic!("expected an event, got {:?}", other),
    }
}

#[test]
fn provisional_is_reported() {
    let mut call = SipOutgoingCall::new(false);
    let (out, actions) = call.recv(&SipOutgoingInput::Initiator(
        InitiatorResponse::Provisional { code: 100 },
    ));
    assert!(actions.is_empty());
    let expected = build_sip_event(sip_event::Event::Provisional(sip_event::Provisional {
        code: 100,
    }));
    assert_eq!(event_of(out), expected);
}

#[test]
fn first_challenge_retries_second_fails() {
    let mut call = SipOutgoingCall::new(true);
    let (out, actions) = call.recv(&SipOutgoingInput::Initiator(InitiatorResponse::Failure {
        code: 401,
    }));
    assert_eq!(out, Some(SipOutgoingCallOut::Continue));
    assert_eq!(
        actions,
        vec![SipOutgoingAction::FeedAuthChallenge, SipOutgoingAction::ResendInvite]
    );

    let (out, actions) = call.recv(&SipOutgoingInput::Initiator(InitiatorResponse::Failure {
        code: 401,
    }));
    assert!(actions.is_empty());
    let expected = build_sip_event(sip_event::Event::Failure(sip_event::Failure { code: 401 }));
    assert_eq!(event_of(out), expected);
}

#[test]
fn challenge_without_credentials_fails_at_once() {
    let mut call = SipOutgoingCall::new(false);
    let (out, actions) = call.recv(&SipOutgoingInput::Initiator(InitiatorResponse::Failure {
        code: 407,
    }));
    assert!(actions.is_empty());
    let expected = build_sip_event(sip_event::Event::Failure(sip_event::Failure { code: 407 }));
    assert_eq!(event_of(out), expected);
}

#[test]
fn retried_invite_success_reaches_talking() {
    let mut call = SipOutgoingCall::new(true);
    let (_, _) = call.recv(&SipOutgoingInput::Initiator(InitiatorResponse::Failure {
        code: 401,
    }));
    let (out, actions) = call.recv(&SipOutgoingInput::Initiator(InitiatorResponse::Session {
        code: 200,
        body: b"v=0".to_vec(),
    }));
    assert_eq!(
        actions,
        vec![SipOutgoingAction::SendAck, SipOutgoingAction::SetAnswer]
    );
    let expected = build_sip_event(sip_event::Event::Accepted(sip_event::Accepted {
        code: 200,
    }));
    assert_eq!(event_of(out), expected);

    // The peer hangs up: the engine reports BYE, then the session ends.
    let (out, _) = call.recv(&SipOutgoingInput::Session(SessionEvent::Bye));
    let expected = build_sip_event(sip_event::Event::Bye(sip_event::Bye {}));
    assert_eq!(event_of(out), expected);
    let (out, _) = call.recv(&SipOutgoingInput::Session(SessionEvent::Terminated));
    assert_eq!(out, None);
}

#[test]
fn empty_success_body_skips_set_answer() {
    let mut call = SipOutgoingCall::new(false);
    let (_, actions) = call.recv(&SipOutgoingInput::Initiator(InitiatorResponse::Session {
        code: 200,
        body: Vec::new(),
    }));
    assert_eq!(actions, vec![SipOutgoingAction::SendAck]);
}

#[test]
fn cancel_in_calling_reports_cancelled_once_and_never_accepted() {
    let mut call = SipOutgoingCall::new(false);
    let end = call.end();
    assert_eq!(end, Some(SipOutgoingEndAction::SendCancel { with_auth: false }));

    let (out, _) = call.recv(&SipOutgoingInput::Initiator(InitiatorResponse::Failure {
        code: 487,
    }));
    let expected = OutgoingCallEvent {
        event: Some(outgoing_call_event::Event::Cancelled(
            outgoing_call_event::Cancelled {},
        )),
    };
    assert_eq!(event_of(out), expected);

    // Draining: the 487 and anything further never become Accepted.
    let (out, _) = call.recv(&SipOutgoingInput::Initiator(InitiatorResponse::Failure {
        code: 487,
    }));
    assert_eq!(out, Some(SipOutgoingCallOut::Continue));
    let (out, _) = call.recv(&SipOutgoingInput::Initiator(InitiatorResponse::Finished));
    assert_eq!(out, None);
}

#[test]
fn cancel_in_early_then_finished() {
    let mut call = SipOutgoingCall::new(false);
    let (out, _) = call.recv(&SipOutgoingInput::Initiator(InitiatorResponse::Early {
        code: 183,
    }));
    let expected = build_sip_event(sip_event::Event::Early(sip_event::Early { code: 183 }));
    assert_eq!(event_of(out), expected);

    let end = call.end();
    assert_eq!(end, Some(SipOutgoingEndAction::SendCancel { with_auth: false }));
    let (out, _) = call.recv(&SipOutgoingInput::Initiator(InitiatorResponse::Finished));
    let expected = OutgoingCallEvent {
        event: Some(outgoing_call_event::Event::Cancelled(
            outgoing_call_event::Cancelled {},
        )),
    };
    assert_eq!(event_of(out), expected);
    let (out, _) = call.recv(&SipOutgoingInput::Initiator(InitiatorResponse::Finished));
    assert_eq!(out, None);
}

#[test]
fn end_in_talking_terminates_session() {
    let mut call = SipOutgoingCall::new(false);
    let (_, _) = call.recv(&SipOutgoingInput::Initiator(InitiatorResponse::Session {
        code: 200,
        body: b"v=0".to_vec(),
    }));
    let end = call.end();
    assert_eq!(end, Some(SipOutgoingEndAction::TerminateSession));
    let (out, _) = call.recv(&SipOutgoingInput::Session(SessionEvent::Terminated));
    let expected = OutgoingCallEvent {
        event: Some(outgoing_call_event::Event::Terminated(
            outgoing_call_event::Terminated {},
        )),
    };
    assert_eq!(event_of(out), expected);
}
