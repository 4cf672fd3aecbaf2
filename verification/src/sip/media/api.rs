//! The media-gateway control API: token endpoints and the reading of
//! token responses. The HTTP exchange itself happens in the runtime; the
//! library builds the requests and decides what a response means.

use vstd::prelude::*;

verus! {

/// Failures of the media API.
#[derive(Debug, Clone, PartialEq)]
pub enum MediaApiError {
    /// The HTTP call failed; the message describes it.
    Http(String),
    /// The media server reported an error of its own.
    Media(String),
}

/// The media gateway's address and the secret used against it.
#[derive(Debug)]
pub struct MediaApi {
    gateway: String,
    secret: String,
}

impl Clone for MediaApi {
    fn clone(&self) -> (r: Self)
        ensures
            r == *self,
    {
        MediaApi { gateway: self.gateway.clone(), secret: self.secret.clone() }
    }
}

impl MediaApi {
    /// The gateway base URL, for contracts.
    pub closed spec fn gateway_spec(&self) -> Seq<char> {
        self.gateway@
    }

    /// The app secret used against the gateway, for contracts.
    pub closed spec fn secret_spec(&self) -> Seq<char> {
        self.secret@
    }

    pub fn new(gateway: &str, secret: &str) -> (r: Self)
        ensures
            r.gateway_spec() == gateway@,
            r.secret_spec() == secret@,
    {
        MediaApi { gateway: gateway.to_owned(), secret: secret.to_owned() }
    }

    pub fn gateway(&self) -> (r: &str)
        ensures
            r@ == self.gateway_spec(),
    {
        self.gateway.as_str()
    }

    /// The bearer value sent with token requests.
    pub fn secret(&self) -> (r: &str)
        ensures
            r@ == self.secret_spec(),
    {
        self.secret.as_str()
    }

    /// The URL of the RTP-engine token endpoint.
    pub fn rtpengine_token_url(&self) -> (r: String)
        ensures
            r@ == self.gateway_spec() + "/token/rtpengine"@,
    {
        let mut url = self.gateway.clone();
        url.append("/token/rtpengine");
        url
    }

    /// The URL of the WebRTC token endpoint.
    pub fn webrtc_token_url(&self) -> (r: String)
        ensures
            r@ == self.gateway_spec() + "/token/webrtc"@,
    {
        let mut url = self.gateway.clone();
        url.append("/token/webrtc");
        url
    }

    /// The URL of the RTP-engine offer endpoint.
    pub fn rtpengine_offer_url(&self) -> (r: String)
        ensures
            r@ == self.gateway_spec() + "/rtpengine/offer"@,
    {
        let mut url = self.gateway.clone();
        url.append("/rtpengine/offer");
        url
    }

    /// The URL of the RTP-engine answer endpoint.
    pub fn rtpengine_answer_url(&self) -> (r: String)
        ensures
            r@ == self.gateway_spec() + "/rtpengine/answer"@,
    {
        let mut url = self.gateway.clone();
        url.append("/rtpengine/answer");
        url
    }
}

/// Reads a token response: the token iff the server returned data, else
/// the server's error message, or a placeholder when it sent none.
pub fn token_from_response(data: Option<String>, error: Option<String>) -> (r: Result<
    String,
    MediaApiError,
>)
    ensures
        match data {
            Some(token) => r == Ok::<String, MediaApiError>(token),
            None => match error {
                Some(message) => r == Err::<String, MediaApiError>(
                    MediaApiError::Media(message),
                ),
                None => r matches Err(MediaApiError::Media(m)) && m@ == "Unknown"@,
            },
        },
{
    match data {
        Some(token) => Ok(token),
        None => match error {
            Some(message) => Err(MediaApiError::Media(message)),
            None => Err(MediaApiError::Media("Unknown".to_owned())),
        },
    }
}

} // verus!
