//! Notify-token API payloads.

use vstd::prelude::*;

verus! {

/// Failures of the token API.
#[derive(Debug, Clone, Copy, PartialEq, Eq, Structural)]
pub enum TokenApiError {
    WrongSecret,
}

/// A request for a notify token bound to a client id.
#[derive(Debug, Clone)]
pub struct CreateNotifyTokenRequest {
    pub client_id: String,
    pub ttl: u64,
}

/// The minted notify token.
#[derive(Debug, Clone, PartialEq)]
pub struct CreateNotifyTokenResponse {
    pub token: String,
}

} // verus!
