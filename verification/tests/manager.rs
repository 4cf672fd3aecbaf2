//! The call manager end to end: admission of incoming INVITEs, outgoing
//! registration, destroy handling, subscriber auto-end, request tags.

use sip_gateway::address_book::storage::AddressBookStorage;
use sip_gateway::call_manager::incoming_call::answer_incoming_request;
use sip_gateway::call_manager::incoming_call::notify::IncomingCallNotifySender;
use sip_gateway::call_manager::incoming_call::notify::NotifyDelivery;
use sip_gateway::call_manager::CallManager;
use sip_gateway::call_manager::CallTaskGuard;
use sip_gateway::call_manager::SubscriberSet;
use sip_gateway::call_manager::sip_uri;
use sip_gateway::protocol::address_book::HookContentType;
use sip_gateway::protocol::address_book::IpAddress;
use sip_gateway::protocol::address_book::IpSubnet;
use sip_gateway::protocol::address_book::PhoneNumber;
use sip_gateway::protocol::address_book::PhoneNumberRoute;
use sip_gateway::protocol::incoming::IncomingCallAction;
use sip_gateway::protocol::incoming::IncomingCallActionRequest;
use sip_gateway::protocol::incoming::IncomingCallActionResponse;
use sip_gateway::protocol::outgoing::OutgoingCallActionResponse;
use sip_gateway::protocol::protobuf::sip_gateway::incoming_call_data::incoming_call_request;
use sip_gateway::protocol::protobuf::sip_gateway::incoming_call_data::incoming_call_response;
use sip_gateway::protocol::protobuf::sip_gateway::outgoing_call_data::outgoing_call_response;
use sip_gateway::protocol::InternalCallId;
use sip_gateway::secure::SecureContext;
use sip_gateway::sip::server::incoming::SipIncomingAction;
use sip_gateway::sip::server::incoming::SipIncomingCall;
use sip_gateway::call_manager::incoming_call::ArrivalPlan;
use sip_gateway::call_manager::incoming_call::plan_arrival;
use sip_gateway::protocol::protobuf::sip_gateway::incoming_call_data::incoming_call_event;
use sip_gateway::protocol::protobuf::sip_gateway::incoming_call_data::incoming_call_notify_response;
use sip_gateway::sip::media::rtp_answer::MediaRtpEngineAnswer;
use sip_gateway::sip::media::rtp_offer::LocationHeader;
use sip_gateway::sip::server::incoming::SipIncomingCallOut;
use sip_gateway::sip::server::incoming::SipIncomingInput;
use sip_gateway::sip::server::outgoing::InitiatorResponse;
use sip_gateway::sip::server::outgoing::SipOutgoingCall;
use sip_gateway::sip::server::outgoing::SipOutgoingCallOut;
use sip_gateway::sip::server::outgoing::SipOutgoingEndAction;
use sip_gateway::sip::server::outgoing::SipOutgoingInput;

fn v4(a: u8, b: u8, c: u8, d: u8) -> IpAddress {
    let bits = ((a as u128) << 24) | ((b as u128) << 16) | ((c as u128) << 8) | (d as u128);
    IpAddress { bits, v6: false }
}

fn directory_with_1555() -> AddressBookStorage {
    let mut storage = AddressBookStorage::new("root");
    storage.sync_numbers(vec![PhoneNumber {
        number: "+1555".to_owned(),
        subnets: vec![IpSubnet { base: v4(10, 0, 0, 0), prefix_len: 24 }],
        auth: None,
        app_id: "".to_owned(),
        hook: "http://app/hook".to_owned(),
        hook_content_type: HookContentType::Json,
        route: PhoneNumberRoute::Dynamic { hook: "http://app/hook".to_owned() },
    }]);
    storage
}

#[test]
fn admitted_invite_registers_the_call() {
    let storage = directory_with_1555();
    let secure = SecureContext::new("root");
    let mut manager = CallManager::new("http://media");
    let call = SipIncomingCall::new(v4(10, 0, 0, 5), "+1999".to_owned(), "+1555".to_owned());
    let call_id = call.call_id();

    let admitted = manager.accept_incoming(&storage, &secure, &call).unwrap();
    let (api, number, token, call_ws) = admitted;
    assert_eq!(api.gateway(), "http://media");
    assert_eq!(api.secret(), "root");
    assert_eq!(number.number, "+1555");
    assert_eq!(
        call_ws,
        format!("/call/incoming/{}?token={}", call_id.as_str(), token)
    );
    assert!(manager.knows_call(&call_id));

    // The minted token authorizes exactly this call.
    let decoded = secure.decode_call_token(&token).unwrap();
    assert!(decoded.call_id.same_as(&call_id));
}

#[test]
fn unadmitted_invite_is_rejected_with_488() {
    let storage = directory_with_1555();
    let secure = SecureContext::new("root");
    let mut manager = CallManager::new("http://media");
    let call = SipIncomingCall::new(v4(10, 0, 0, 5), "+1999".to_owned(), "+9999".to_owned());
    let call_id = call.call_id();

    assert!(manager.accept_incoming(&storage, &secure, &call).is_none());
    assert!(!manager.knows_call(&call_id));
    assert_eq!(
        call.kill_because_validate_failed(),
        SipIncomingAction::RespondFailure { code: 488 }
    );
}

#[test]
fn outgoing_registration_builds_token_and_ws_path() {
    let secure = SecureContext::new("root");
    let mut manager = CallManager::new("http://media");
    let call_id = InternalCallId::random();
    let response = manager.register_outgoing_call(&call_id, &secure);
    assert_eq!(response.call_id, call_id.as_str());
    assert_eq!(
        response.call_ws,
        format!("/call/outgoing/{}?token={}", call_id.as_str(), response.call_token)
    );
    assert!(manager.knows_call(&call_id));
    let decoded = secure.decode_call_token(&response.call_token).unwrap();
    assert!(decoded.call_id.same_as(&call_id));
}

#[test]
fn destroy_removes_the_call_exactly_once() {
    let secure = SecureContext::new("root");
    let mut manager = CallManager::new("http://media");
    let call_id = InternalCallId::random();
    manager.register_outgoing_call(&call_id, &secure);

    let mut guard = CallTaskGuard::new(call_id.clone());
    let notice = guard.finish().unwrap();
    assert!(notice.same_as(&call_id));
    assert_eq!(guard.finish(), None);

    assert!(manager.handle_destroy(&notice));
    assert!(!manager.knows_call(&call_id));
    assert!(!manager.handle_destroy(&notice));
}

#[test]
fn subscriber_auto_end_needs_a_join_first() {
    let mut subs = SubscriberSet::new();
    // Nobody ever joined: a stray leave never ends the call.
    assert!(!subs.on_peer_left(7));
    subs.on_peer_joined(7);
    subs.on_peer_joined(9);
    assert!(!subs.on_peer_left(7));
    assert!(subs.on_peer_left(9));
}

#[test]
fn request_answers_echo_the_tag() {
    let response = answer_incoming_request(
        42,
        incoming_call_response::Response::Ring(incoming_call_response::Ring {}),
    );
    assert_eq!(response.req_id, 42);

    let response = sip_gateway::call_manager::outgoing_call::answer_outgoing_request(
        7,
        outgoing_call_response::Response::End(outgoing_call_response::End {}),
    );
    assert_eq!(response.req_id, 7);
}

#[test]
fn cross_node_action_reaches_the_same_channel() {
    // Node A owns the call; node B knows only the id text from the token.
    let call = SipIncomingCall::new(v4(10, 0, 0, 5), "+1999".to_owned(), "+1555".to_owned());
    let id_on_a = call.call_id();
    let id_on_b = InternalCallId::new(id_on_a.as_str().to_owned());
    assert_eq!(id_on_a.to_pubsub_channel(), id_on_b.to_pubsub_channel());

    // Node B turns the REST request into the channel action ...
    let request = IncomingCallActionRequest { action: IncomingCallAction::Ring, stream: None };
    let action = request.into_action().unwrap();
    assert!(matches!(action, incoming_call_request::Action::Ring(_)));

    // ... node A performs it and answers, and node B reads success.
    let mut call = call;
    assert_eq!(
        call.send_ringing(),
        Ok(SipIncomingAction::RespondProvisional { code: 180 })
    );
    let answer = incoming_call_response::Response::Ring(incoming_call_response::Ring {});
    assert!(IncomingCallActionResponse::from_response(answer).is_ok());
}

#[test]
fn action_conversions_cover_the_error_cases() {
    let request = IncomingCallActionRequest { action: IncomingCallAction::Accept, stream: None };
    assert!(request.into_action().is_err());

    let failed = incoming_call_response::Response::Error(incoming_call_response::Error {
        message: "busy".to_owned(),
    });
    assert_eq!(
        IncomingCallActionResponse::from_response(failed),
        Err("busy".to_owned())
    );

    let failed = outgoing_call_response::Response::Error(outgoing_call_response::Error {
        message: "gone".to_owned(),
    });
    assert_eq!(
        OutgoingCallActionResponse::from_response(failed),
        Err("gone".to_owned())
    );
}

#[test]
fn sip_uris_and_notify_routes() {
    assert_eq!(sip_uri("+1999", "sip.example.com"), "sip:+1999@sip.example.com");

    let static_number = PhoneNumber {
        number: "+1555".to_owned(),
        subnets: vec![],
        auth: None,
        app_id: "app1".to_owned(),
        hook: "http://app/hook".to_owned(),
        hook_content_type: HookContentType::Json,
        route: PhoneNumberRoute::Static { client: "client1".to_owned() },
    };
    let sender = IncomingCallNotifySender::new(&static_number);
    assert!(matches!(sender, IncomingCallNotifySender::Websocket { .. }));

    let dynamic_number = PhoneNumber { route: PhoneNumberRoute::Dynamic {
        hook: "http://app/hook".to_owned(),
    }, ..static_number };
    let sender = IncomingCallNotifySender::new(&dynamic_number);
    match &sender {
        IncomingCallNotifySender::Http { hook } => assert_eq!(hook, "http://app/hook"),
        other => panic!("expected the hook route, got {:?}", other),
    }
    let cancel = sender.cancel(&InternalCallId::random(), "+1999", "+1555");
    assert!(cancel.is_none());

    let sender = IncomingCallNotifySender::new(&PhoneNumber {
        number: "+1555".to_owned(),
        subnets: vec![],
        auth: None,
        app_id: "app1".to_owned(),
        hook: "http://app/hook".to_owned(),
        hook_content_type: HookContentType::Json,
        route: PhoneNumberRoute::Static { client: "client1".to_owned() },
    });
    let cancel = sender.cancel(&InternalCallId::random(), "+1999", "+1555").unwrap();
    assert!(matches!(cancel, NotifyDelivery::Publish { .. }));
}

#[test]
fn accept_path_end_to_end() {

    // A peer calls +1555 from 10.0.0.5; the directory admits it.
    let storage = directory_with_1555();
    let secure = SecureContext::new("root");
    let mut manager = CallManager::new("http://media");
    let mut call =
        SipIncomingCall::new(v4(10, 0, 0, 5), "+1999".to_owned(), "+1555".to_owned());
    let (api, number, _token, _ws) =
        manager.accept_incoming(&storage, &secure, &call).unwrap();
    assert_eq!(number.hook, "http://app/hook");

    // 100 Trying goes out, the hook is asked and answers Accept.
    assert_eq!(
        call.send_trying(),
        Ok(SipIncomingAction::RespondProvisional { code: 100 })
    );
    let answer = incoming_call_notify_response::IncomingCallNotifyResponse {
        action: Some(incoming_call_notify_response::Action::Accept(
            incoming_call_notify_response::Accept {
                room: "r".to_owned(),
                peer: "p".to_owned(),
                record: false,
            },
        )),
    };
    let stream = match plan_arrival(answer) {
        ArrivalPlan::Accept(stream) => stream,
        other => panic!("expected an accept plan, got {:?}", other),
    };
    assert_eq!(stream.room, "r");

    // The media server answers; the engine responds 200 OK and talks.
    let mut session = MediaRtpEngineAnswer::new(api, b"remote-offer".to_vec());
    let sdp = session
        .on_answer_created(201, LocationHeader::Present("/r/1".to_owned()), b"v=0".to_vec())
        .unwrap();
    assert_eq!(sdp, b"v=0".to_vec());
    assert_eq!(call.accept(), Ok(SipIncomingAction::RespondSuccessWithSdp));
    match call.recv(SipIncomingInput::Queued) {
        Some(SipIncomingCallOut::Event(e)) => {
            assert!(matches!(e.event, Some(incoming_call_event::Event::Accepted(_))));
        },
        other => panic!("expected the accepted event, got {:?}", other),
    }
}

#[test]
fn control_plane_end_in_early_state() {

    let secure = SecureContext::new("root");
    let mut manager = CallManager::new("http://media");
    let mut engine = SipOutgoingCall::new(false);
    let call_id = engine.call_id();
    manager.register_outgoing_call(&call_id, &secure);

    // The call reaches Early; the REST delete ends it.
    let (_, _) = engine.recv(&SipOutgoingInput::Initiator(InitiatorResponse::Early {
        code: 183,
    }));
    assert_eq!(
        engine.end(),
        Some(SipOutgoingEndAction::SendCancel { with_auth: false })
    );
    let (out, _) = engine.recv(&SipOutgoingInput::Initiator(InitiatorResponse::Finished));
    assert!(matches!(out, Some(SipOutgoingCallOut::Event(_))));
    let (out, _) = engine.recv(&SipOutgoingInput::Initiator(InitiatorResponse::Finished));
    assert_eq!(out, None);

    // The task's destroy notice empties the manager's map.
    let mut guard = CallTaskGuard::new(call_id.clone());
    let notice = guard.finish().unwrap();
    assert!(manager.handle_destroy(&notice));
    assert!(!manager.knows_call(&call_id));
}
