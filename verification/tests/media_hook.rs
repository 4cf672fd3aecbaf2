//! Media-session lifecycle and hook delivery rules.

use sip_gateway::hook::queue::hook_retry_decision;
use sip_gateway::hook::queue::plan_delivery;
use sip_gateway::hook::queue::HookDeliveryOutcome;
use sip_gateway::hook::sender::content_type_name;
use sip_gateway::hook::HttpHook;
use sip_gateway::hook::pick_queue;
use sip_gateway::protocol::address_book::HookContentType;
use sip_gateway::protocol::StreamingInfo;
use sip_gateway::sip::media::api::token_from_response;
use sip_gateway::sip::media::api::MediaApi;
use sip_gateway::sip::media::api::MediaApiError;
use sip_gateway::sip::media::rtp_answer::MediaRtpEngineAnswer;
use sip_gateway::sip::media::rtp_offer::LocationHeader;
use sip_gateway::sip::media::rtp_offer::MediaRtpEngineOffer;
use sip_gateway::sip::media::MediaEngineError;

fn api() -> MediaApi {
    MediaApi::new("http://media", "secret")
}

fn stream() -> StreamingInfo {
    StreamingInfo { room: "r".to_owned(), peer: "p".to_owned(), record: false }
}

#[test]
fn media_api_builds_urls_and_reads_tokens() {
    let api = api();
    assert_eq!(api.rtpengine_token_url(), "http://media/token/rtpengine");
    assert_eq!(api.webrtc_token_url(), "http://media/token/webrtc");
    assert_eq!(api.rtpengine_offer_url(), "http://media/rtpengine/offer");
    assert_eq!(api.rtpengine_answer_url(), "http://media/rtpengine/answer");

    assert_eq!(token_from_response(Some("tok".to_owned()), None), Ok("tok".to_owned()));
    assert_eq!(
        token_from_response(None, Some("boom".to_owned())),
        Err(MediaApiError::Media("boom".to_owned()))
    );
    assert_eq!(
        token_from_response(None, None),
        Err(MediaApiError::Media("Unknown".to_owned()))
    );
}

#[test]
fn offer_lifecycle_creates_answers_and_deletes() {
    let mut offer = MediaRtpEngineOffer::new(api(), stream());
    assert_eq!(offer.sdp(), None);

    let refused = offer.on_offer_created(500, LocationHeader::Missing, Vec::new());
    assert_eq!(refused, Err(MediaEngineError::InvalidStatus(500)));
    let refused = offer.on_offer_created(201, LocationHeader::Missing, Vec::new());
    assert_eq!(refused, Err(MediaEngineError::MissingLocation));
    let refused = offer.on_offer_created(201, LocationHeader::Invalid, Vec::new());
    assert_eq!(refused, Err(MediaEngineError::InvalidLocation));

    let created = offer.on_offer_created(
        201,
        LocationHeader::Present("/rtpengine/123".to_owned()),
        b"v=0".to_vec(),
    );
    assert_eq!(created, Ok(()));
    assert_eq!(offer.sdp(), Some(b"v=0".to_vec()));
    assert_eq!(offer.answer_url(), Some("http://media/rtpengine/123".to_owned()));

    assert!(!offer.answered());
    assert_eq!(offer.on_answer_sent(404), Err(MediaEngineError::InvalidStatus(404)));
    assert!(!offer.answered());
    assert_eq!(offer.on_answer_sent(200), Ok(()));
    assert!(offer.answered());

    // The created resource is deleted exactly once.
    assert_eq!(offer.take_delete_url(), Some("http://media/rtpengine/123".to_owned()));
    assert_eq!(offer.take_delete_url(), None);
}

#[test]
fn answer_lifecycle_stores_the_local_sdp() {
    let mut answer = MediaRtpEngineAnswer::new(api(), b"remote-offer".to_vec());
    assert_eq!(answer.offer().as_slice(), b"remote-offer");

    let refused = answer.on_answer_created(503, LocationHeader::Missing, Vec::new());
    assert_eq!(refused, Err(MediaEngineError::InvalidStatus(503)));

    let sdp = answer
        .on_answer_created(201, LocationHeader::Present("/rtpengine/9".to_owned()), b"v=0".to_vec())
        .unwrap();
    assert_eq!(sdp, b"v=0".to_vec());
    assert_eq!(answer.take_delete_url(), Some("http://media/rtpengine/9".to_owned()));
    assert_eq!(answer.take_delete_url(), None);
}

#[test]
fn hook_retry_is_bounded_and_connect_only() {
    assert!(hook_retry_decision(1, HookDeliveryOutcome::ConnectError));
    assert!(hook_retry_decision(4, HookDeliveryOutcome::ConnectError));
    assert!(!hook_retry_decision(5, HookDeliveryOutcome::ConnectError));
    assert!(!hook_retry_decision(1, HookDeliveryOutcome::OtherError));
    assert!(!hook_retry_decision(1, HookDeliveryOutcome::Success));

    let outcomes = vec![
        HookDeliveryOutcome::ConnectError,
        HookDeliveryOutcome::ConnectError,
        HookDeliveryOutcome::Success,
    ];
    assert_eq!(plan_delivery(&outcomes), (3, HookDeliveryOutcome::Success));

    let outcomes = vec![HookDeliveryOutcome::ConnectError; 7];
    assert_eq!(plan_delivery(&outcomes), (5, HookDeliveryOutcome::ConnectError));

    let outcomes = vec![HookDeliveryOutcome::OtherError, HookDeliveryOutcome::Success];
    assert_eq!(plan_delivery(&outcomes), (1, HookDeliveryOutcome::OtherError));
}

#[test]
fn senders_stay_on_one_queue_of_the_pool() {
    assert_eq!(pick_queue(23, 20), 3);
    assert_eq!(pick_queue(19, 20), 19);
    let pool = HttpHook::new(20);
    let sender = pool.new_sender("http://app/hook", Vec::new());
    assert!(sender.queue_index < 20);
    assert_eq!(sender.endpoint, "http://app/hook");

    let request = sender.make_request(HookContentType::Json, 7u32);
    assert_eq!(request.endpoint, "http://app/hook");
    assert!(!request.wants_response);
    let request = sender.make_sync_request(HookContentType::Protobuf, 7u32);
    assert!(request.wants_response);
}

#[test]
fn content_types_name_their_encoding() {
    assert_eq!(content_type_name(HookContentType::Json), "application/json");
    assert_eq!(content_type_name(HookContentType::Protobuf), "application/protobuf");
}
