//! The identity of an app-scoped notification subscriber.

use vstd::prelude::*;

use crate::protocol::address_book::AppId;
use crate::text;

verus! {

/// An app and one of its clients, naming a notification channel.
#[derive(Debug, Clone, PartialEq, Eq, Hash)]
pub struct NotifyIdentify {
    pub app: AppId,
    pub client: String,
}

/// The channel of an app/client pair: a stable hash of the app id followed
/// by the client id.
pub open spec fn notify_channel_of(app: Seq<char>, client: Seq<char>) -> u64 {
    text::fnv1a_fold(
        text::fnv1a_fold(text::fnv1a_basis(), vstd::utf8::encode_utf8(app)),
        vstd::utf8::encode_utf8(client),
    )
}

impl NotifyIdentify {
    /// The pub/sub channel carrying this identity's notifications. Every
    /// node computes the same channel for the same identity.
    pub fn to_pubsub_channel(&self) -> (r: u64)
        ensures
            r == notify_channel_of(self.app@, self.client@),
    {
        let h = text::fnv1a_hash(self.app.as_str().as_bytes());
        text::fnv1a_continue(h, self.client.as_str().as_bytes())
    }
}

} // verus!
