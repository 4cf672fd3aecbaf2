//! The gateway's data model: call identifiers, call direction, streaming
//! parameters, API error taxonomy and the wire-level event types.

use vstd::prelude::*;

pub mod address_book;
pub mod http;
pub mod incoming;
pub mod notify;
pub mod outgoing;
pub mod protobuf;
pub mod token;

use crate::text;

verus! {

/// The stable 64-bit hash of a string, used to place a call or a notify
/// identity on a cluster-wide pub/sub channel. Every node computes the same
/// value for the same text.
pub open spec fn channel_of(s: Seq<char>) -> u64 {
    text::fnv1a_fold(text::fnv1a_basis(), vstd::utf8::encode_utf8(s))
}

/// Relies on rand::random: draws a value of a type whose standard
/// distribution rand implements. Nothing is promised of the result.
pub assume_specification<T>[ rand::random::<T> ]() -> (r: T)
    where
        rand::distributions::Standard: rand::distributions::Distribution<T>,
;

/// Gateway-assigned call identifier: a random 64-bit number rendered in
/// decimal. It is distinct from the SIP Call-ID header.
#[derive(Debug, PartialEq, Eq, Hash)]
pub struct InternalCallId(String);

impl Clone for InternalCallId {
    fn clone(&self) -> (r: Self)
        ensures
            r == *self,
    {
        InternalCallId(self.0.clone())
    }
}

impl View for InternalCallId {
    type V = Seq<char>;

    closed spec fn view(&self) -> Seq<char> {
        self.0@
    }
}

impl DeepView for InternalCallId {
    type V = Seq<char>;

    open spec fn deep_view(&self) -> Seq<char> {
        self.view()
    }
}

impl InternalCallId {
    /// Wraps an already-rendered identifier, as when it arrives in a token
    /// or an API path.
    pub fn new(id: String) -> (r: Self)
        ensures
            r@ == id@,
    {
        InternalCallId(id)
    }

    /// A fresh identifier: some 64-bit number rendered in decimal.
    pub fn random() -> (r: Self)
        ensures
            exists|n: u64| r@ == text::dec_digits(n as nat),
    {
        let n: u64 = rand::random();
        let s = text::decimal_string(n);
        proof {
            assert(s@ == text::dec_digits(n as nat));
        }
        InternalCallId(s)
    }

    /// The identifier as a string, for building URLs and claims.
    pub fn as_str(&self) -> (r: &str)
        ensures
            r@ == self@,
    {
        self.0.as_str()
    }

    /// A copy of the identifier's text.
    pub fn to_text(&self) -> (r: String)
        ensures
            r@ == self@,
    {
        self.0.clone()
    }

    /// Whether two identifiers name the same call.
    pub fn same_as(&self, other: &Self) -> (r: bool)
        ensures
            r == (self@ == other@),
    {
        self.0 == other.0
    }

    /// The call's pub/sub channel identifier: a stable hash of the text, so
    /// that every node in a cluster resolves the same channel.
    pub fn to_pubsub_channel(&self) -> (r: u64)
        ensures
            r == channel_of(self@),
    {
        text::fnv1a_hash(self.0.as_str().as_bytes())
    }
}

/// SIP digest-authentication credentials for an outbound call.
#[derive(Debug, PartialEq)]
pub struct SipAuth {
    pub username: String,
    pub password: String,
}

impl Clone for SipAuth {
    fn clone(&self) -> (r: Self)
        ensures
            r == *self,
    {
        SipAuth { username: self.username.clone(), password: self.password.clone() }
    }
}

/// Where the media server should attach a call's RTP stream.
#[derive(Debug, PartialEq)]
pub struct StreamingInfo {
    pub room: String,
    pub peer: String,
    pub record: bool,
}

impl Clone for StreamingInfo {
    fn clone(&self) -> (r: Self)
        ensures
            r == *self,
    {
        StreamingInfo { room: self.room.clone(), peer: self.peer.clone(), record: self.record }
    }
}

/// The taxonomy of call-API failures surfaced over HTTP.
#[derive(Debug, Clone, PartialEq, Eq)]
pub enum CallApiError {
    BadRequest(&'static str),
    InternalChannel(String),
    WrongSecret,
    WrongToken,
    SipError(String),
}

/// Which side opened a call.
#[derive(Debug, Clone, Copy, PartialEq, Eq, Structural)]
pub enum CallDirection {
    Outgoing,
    Incoming,
}

} // verus!
