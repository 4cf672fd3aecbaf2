//! Per-call media-server resources: the RTP-engine offer and answer
//! sessions and their lifecycle rules.

use vstd::prelude::*;

pub mod api;
pub mod rtp_answer;
pub mod rtp_offer;

verus! {

/// Failures of the RTP-engine lifecycle.
#[derive(Debug, Clone, PartialEq)]
pub enum MediaEngineError {
    /// The media API refused the token request.
    Media(crate::sip::media::api::MediaApiError),
    /// The HTTP transport failed; the message describes it.
    Transport(String),
    /// A create response lacked the Location header.
    MissingLocation,
    /// The Location header was not readable text.
    InvalidLocation,
    /// A response had an unexpected status code.
    InvalidStatus(u16),
    /// A response body could not be read.
    InvalidBody,
}

} // verus!
