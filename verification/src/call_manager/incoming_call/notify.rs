//! How a number's owning app is told of call progress: a static route
//! publishes on the app's notify channel, a dynamic route posts to the
//! number's hook. The library decides the route and builds the payload;
//! the runtime performs the publish or the POST.

use vstd::prelude::*;

use crate::protocol::address_book::AppId;
use crate::protocol::address_book::PhoneNumber;
use crate::protocol::address_book::PhoneNumberRoute;
use crate::protocol::incoming::HookIncomingCallRequest;
use crate::protocol::notify::notify_channel_of;
use crate::protocol::notify::NotifyIdentify;
use crate::protocol::protobuf::sip_gateway::incoming_call_notify;
use crate::protocol::protobuf::sip_gateway::IncomingCallNotify;
use crate::protocol::InternalCallId;

verus! {

/// Where this call's notifications go.
#[derive(Debug)]
pub enum IncomingCallNotifySender {
    /// Post to the number's hook endpoint and await its answer.
    Http { hook: String },
    /// Publish as guest on the app's notify channel.
    Websocket { channel: u64 },
}

/// What the runtime must do to deliver one notification.
#[derive(Debug)]
pub enum NotifyDelivery {
    /// Post the arrival request to this endpoint and await the directive.
    HttpRequest { endpoint: String },
    /// Publish this payload on the channel, expecting no answer.
    Publish { channel: u64, notify: IncomingCallNotify },
}

impl IncomingCallNotifySender {
    /// Chooses the route the number is configured with: the app's notify
    /// channel for a static route, the hook endpoint for a dynamic one.
    pub fn new(number: &PhoneNumber) -> (r: Self)
        ensures
            match number@.route {
                PhoneNumberRoute::Static { client } => (r matches
                    IncomingCallNotifySender::Websocket { channel } && channel
                    == notify_channel_of(number@.app_id, client@)),
                PhoneNumberRoute::Dynamic { hook } => (r matches
                    IncomingCallNotifySender::Http { hook: h } && h@ == hook@),
            },
    {
        match &number.route {
            PhoneNumberRoute::Static { client } => {
                let identify = NotifyIdentify {
                    app: AppId::new(number.app_id.clone()),
                    client: client.clone(),
                };
                let channel = identify.to_pubsub_channel();
                IncomingCallNotifySender::Websocket { channel }
            },
            PhoneNumberRoute::Dynamic { hook } => (IncomingCallNotifySender::Http {
                hook: hook.clone(),
            }),
        }
    }

    /// The delivery of the arrival notification: a synchronous hook POST
    /// on the dynamic route, a guest publish of the Arrived payload on
    /// the static one.
    pub fn notify(&self, req: HookIncomingCallRequest) -> (r: NotifyDelivery)
        ensures
            match self {
                IncomingCallNotifySender::Http { hook } => (r matches
                    NotifyDelivery::HttpRequest { endpoint } && endpoint@ == hook@),
                IncomingCallNotifySender::Websocket { channel } => (r matches
                    NotifyDelivery::Publish { channel: c, notify } && c == channel
                    && notify.call_id@ == req.call_id@ && (notify.event matches Some(
                    incoming_call_notify::Event::Arrived(a),
                ) && a.call_token@ == req.call_token@ && a.call_ws@ == req.call_ws@
                    && a.call_from@ == req.from@ && a.call_to@ == req.to@)),
            },
    {
        match self {
            IncomingCallNotifySender::Http { hook } => (NotifyDelivery::HttpRequest {
                endpoint: hook.clone(),
            }),
            IncomingCallNotifySender::Websocket { channel } => {
                let notify = IncomingCallNotify {
                    call_id: req.call_id.to_text(),
                    event: Some(
                        incoming_call_notify::Event::Arrived(
                            incoming_call_notify::CallArrived {
                                call_token: req.call_token,
                                call_ws: req.call_ws,
                                call_from: req.from,
                                call_to: req.to,
                            },
                        ),
                    ),
                };
                NotifyDelivery::Publish { channel: *channel, notify }
            },
        }
    }

    /// The delivery of the cancelled notification: nothing on the
    /// dynamic route, a guest publish on the static one.
    pub fn cancel(&self, call_id: &InternalCallId, from: &str, to: &str) -> (r: Option<
        NotifyDelivery,
    >)
        ensures
            match self {
                IncomingCallNotifySender::Http { .. } => r is None,
                IncomingCallNotifySender::Websocket { channel } => (r matches Some(
                    NotifyDelivery::Publish { channel: c, notify },
                ) && c == channel && notify.call_id@ == call_id@ && (notify.event matches
                    Some(incoming_call_notify::Event::Cancelled(e)) && e.call_from@ == from@
                    && e.call_to@ == to@)),
            },
    {
        match self {
            IncomingCallNotifySender::Http { .. } => None,
            IncomingCallNotifySender::Websocket { channel } => {
                let notify = IncomingCallNotify {
                    call_id: call_id.to_text(),
                    event: Some(
                        incoming_call_notify::Event::Cancelled(
                            incoming_call_notify::CallCancelled {
                                call_from: from.to_owned(),
                                call_to: to.to_owned(),
                            },
                        ),
                    ),
                };
                Some(NotifyDelivery::Publish { channel: *channel, notify })
            },
        }
    }

    /// The delivery of the accepted notification: nothing on the dynamic
    /// route, a guest publish on the static one.
    pub fn accept(&self, call_id: &InternalCallId, from: &str, to: &str) -> (r: Option<
        NotifyDelivery,
    >)
        ensures
            match self {
                IncomingCallNotifySender::Http { .. } => r is None,
                IncomingCallNotifySender::Websocket { channel } => (r matches Some(
                    NotifyDelivery::Publish { channel: c, notify },
                ) && c == channel && notify.call_id@ == call_id@ && (notify.event matches
                    Some(incoming_call_notify::Event::Accepted(e)) && e.call_from@ == from@
                    && e.call_to@ == to@)),
            },
    {
        match self {
            IncomingCallNotifySender::Http { .. } => None,
            IncomingCallNotifySender::Websocket { channel } => {
                let notify = IncomingCallNotify {
                    call_id: call_id.to_text(),
                    event: Some(
                        incoming_call_notify::Event::Accepted(
                            incoming_call_notify::CallAccepted {
                                call_from: from.to_owned(),
                                call_to: to.to_owned(),
                            },
                        ),
                    ),
                };
                Some(NotifyDelivery::Publish { channel: *channel, notify })
            },
        }
    }
}

} // verus!
