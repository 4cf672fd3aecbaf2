//! Decimal rendering, the stable channel hash, event builders and the
//! WebSocket reply tags.

use sip_gateway::call_manager::incoming_call::build_call_event;
use sip_gateway::call_manager::incoming_call::build_call_notify_accept;
use sip_gateway::call_manager::incoming_call::build_call_notify_cancel;
use sip_gateway::call_manager::incoming_call::build_call_notify_reject;
use sip_gateway::call_manager::outgoing_call::build_outgoing_call_event;
use sip_gateway::call_manager::outgoing_call::build_outgoing_ended_event;
use sip_gateway::protocol::http::CallActionResponse;
use sip_gateway::protocol::http::WsActionResponse;
use sip_gateway::protocol::incoming::is_sip_incoming_accepted;
use sip_gateway::protocol::incoming::is_sip_incoming_cancelled;
use sip_gateway::protocol::notify::NotifyIdentify;
use sip_gateway::protocol::address_book::AppId;
use sip_gateway::protocol::protobuf::sip_gateway::call_event;
use sip_gateway::protocol::protobuf::sip_gateway::incoming_call_data::incoming_call_event;
use sip_gateway::protocol::protobuf::sip_gateway::incoming_call_data::incoming_call_event::sip_event;
use sip_gateway::protocol::protobuf::sip_gateway::incoming_call_data::IncomingCallEvent;
use sip_gateway::protocol::InternalCallId;
use sip_gateway::text::decimal_string;
use sip_gateway::text::fnv1a_hash;

#[test]
fn decimal_rendering_is_exact() {
    assert_eq!(decimal_string(0), "0");
    assert_eq!(decimal_string(7), "7");
    assert_eq!(decimal_string(1234567890123), "1234567890123");
    assert_eq!(decimal_string(u64::MAX), "18446744073709551615");
}

#[test]
fn channel_hash_matches_the_reference_values() {
    assert_eq!(fnv1a_hash(b""), 0xcbf29ce484222325);
    assert_eq!(fnv1a_hash(b"abc"), 0xe71fa2190541574b);
    assert_eq!(InternalCallId::new("12345".to_owned()).to_pubsub_channel(), 0xe575e8883c0f89f8);
}

#[test]
fn notify_channels_depend_on_app_and_client() {
    let a = NotifyIdentify { app: AppId::new("app1".to_owned()), client: "c1".to_owned() };
    let b = NotifyIdentify { app: AppId::new("app1".to_owned()), client: "c2".to_owned() };
    let c = NotifyIdentify { app: AppId::new("app1".to_owned()), client: "c1".to_owned() };
    assert_ne!(a.to_pubsub_channel(), b.to_pubsub_channel());
    assert_eq!(a.to_pubsub_channel(), c.to_pubsub_channel());
}

#[test]
fn random_call_ids_are_decimal_and_distinct() {
    let a = InternalCallId::random();
    let b = InternalCallId::random();
    assert!(a.as_str().chars().all(|c| c.is_ascii_digit()));
    assert_ne!(a.as_str(), b.as_str());
}

#[test]
fn call_events_carry_id_and_clock_reading() {
    let id = InternalCallId::new("42".to_owned());
    let event = build_call_event(
        &id,
        1111,
        IncomingCallEvent {
            event: Some(incoming_call_event::Event::Accepted(incoming_call_event::Accepted {})),
        },
    );
    assert_eq!(event.call_id, "42");
    assert_eq!(event.timestamp, 1111);
    assert!(matches!(event.event, Some(call_event::Event::Incoming(_))));

    let later = build_outgoing_call_event(&id, 2222, build_outgoing_ended_event());
    assert!(event.timestamp <= later.timestamp);
}

#[test]
fn notify_builders_name_the_parties() {
    let id = InternalCallId::new("42".to_owned());
    for event in [
        build_call_notify_cancel(&id, "+1999", "+1555", 5),
        build_call_notify_reject(&id, "+1999", "+1555", 6),
        build_call_notify_accept(&id, "+1999", "+1555", 7),
    ] {
        assert_eq!(event.call_id, "42");
        match event.event {
            Some(call_event::Event::Notify(n)) => assert_eq!(n.call_id, "42"),
            other => panic!("expected a notify event, got {:?}", other),
        }
    }
}

#[test]
fn event_classifiers_pick_the_right_variants() {
    let cancelled = Some(incoming_call_event::Event::Sip(incoming_call_event::SipEvent {
        event: Some(sip_event::Event::Cancelled(sip_event::Cancelled {})),
    }));
    assert!(is_sip_incoming_cancelled(&cancelled).is_some());
    assert!(is_sip_incoming_accepted(&cancelled).is_none());

    let accepted = Some(incoming_call_event::Event::Accepted(incoming_call_event::Accepted {}));
    assert!(is_sip_incoming_accepted(&accepted).is_some());
    assert!(is_sip_incoming_cancelled(&accepted).is_none());

    let bye = Some(incoming_call_event::Event::Sip(incoming_call_event::SipEvent {
        event: Some(sip_event::Event::Bye(sip_event::Bye {})),
    }));
    assert!(is_sip_incoming_cancelled(&bye).is_none());
    assert!(is_sip_incoming_accepted(&none_event()).is_none());
}

fn none_event() -> Option<incoming_call_event::Event> {
    None
}

#[test]
fn ws_replies_echo_the_request_tag() {
    let ok = WsActionResponse::ok(9, CallActionResponse {});
    assert_eq!(ok.request_id, Some(9));
    assert!(ok.success);
    let failed = WsActionResponse::failed(9, "busy".to_owned());
    assert_eq!(failed.request_id, Some(9));
    assert!(!failed.success);
}
