//! The inbound call's RTP-engine resource: post the remote offer, keep
//! the local answer, and guarantee the delete of the created resource.

use vstd::prelude::*;

use crate::sip::media::api::MediaApi;
use crate::sip::media::rtp_offer::LocationHeader;
use crate::sip::media::MediaEngineError;

verus! {

/// The answer session: the remote offer it was built from, and the
/// created resource with its local answer SDP.
pub struct MediaRtpEngineAnswer {
    api: MediaApi,
    offer: Vec<u8>,
    location: Option<String>,
    local_sdp: Option<Vec<u8>>,
}

impl MediaRtpEngineAnswer {
    /// The resource location, when one was created.
    pub closed spec fn location_spec(&self) -> Option<Seq<char>> {
        match self.location {
            Some(l) => Some(l@),
            None => None,
        }
    }

    /// The local answer SDP, once created.
    pub closed spec fn local_sdp_spec(&self) -> Option<Seq<u8>> {
        match self.local_sdp {
            Some(s) => Some(s@),
            None => None,
        }
    }

    /// The remote offer this session was built from.
    pub closed spec fn offer_spec(&self) -> Seq<u8> {
        self.offer@
    }

    /// The gateway this session talks to.
    pub closed spec fn gateway_spec(&self) -> Seq<char> {
        self.api.gateway_spec()
    }

    /// A created resource must be deleted before the call's task exits.
    pub open spec fn needs_delete(&self) -> bool {
        self.location_spec() is Some
    }

    pub fn new(api: MediaApi, offer: Vec<u8>) -> (r: Self)
        ensures
            r.offer_spec() == offer@,
            r.location_spec() is None,
            r.local_sdp_spec() is None,
            !r.needs_delete(),
            r.gateway_spec() == api.gateway_spec(),
    {
        MediaRtpEngineAnswer { api, offer, location: None, local_sdp: None }
    }

    /// The media API handle of this session.
    pub fn api(&self) -> &MediaApi {
        &self.api
    }

    /// The remote offer to post.
    pub fn offer(&self) -> (r: &Vec<u8>)
        ensures
            r@ == self.offer_spec(),
    {
        &self.offer
    }

    /// Reads the create-answer response: `201` with a readable Location
    /// stores the resource and returns the local SDP; `201` without one
    /// is an error; any other status is refused.
    pub fn on_answer_created(&mut self, status: u16, location: LocationHeader, body: Vec<u8>)
        -> (r: Result<Vec<u8>, MediaEngineError>)
        requires
            old(self).location_spec() is None,
            old(self).local_sdp_spec() is None,
        ensures
            final(self).offer_spec() == old(self).offer_spec(),
            final(self).gateway_spec() == old(self).gateway_spec(),
            match r {
                Ok(sdp) => status == 201 && (location matches LocationHeader::Present(l)
                    && final(self).location_spec() == Some(l@)) && final(self).local_sdp_spec() == Some(body@) && sdp@ == body@,
                Err(e) => final(self).location_spec() is None && final(self).local_sdp_spec() is None && (if status != 201 {
                    e == MediaEngineError::InvalidStatus(status)
                } else if location is Missing {
                    e == MediaEngineError::MissingLocation
                } else {
                    location is Invalid && e == MediaEngineError::InvalidLocation
                }),
            },
    {
        if status != 201 {
            return Err(MediaEngineError::InvalidStatus(status));
        }
        match location {
            LocationHeader::Missing => Err(MediaEngineError::MissingLocation),
            LocationHeader::Invalid => Err(MediaEngineError::InvalidLocation),
            LocationHeader::Present(l) => {
                self.location = Some(l);
                let sdp = body.clone();
                proof {
                    assert(sdp@ =~= body@);
                }
                self.local_sdp = Some(body);
                Ok(sdp)
            },
        }
    }

    /// Takes the delete URL out: returns it exactly when a resource was
    /// created, and leaves the session needing no delete. The runtime
    /// calls this on drop and issues the DELETE.
    pub fn take_delete_url(&mut self) -> (r: Option<String>)
        ensures
            !final(self).needs_delete(),
            final(self).offer_spec() == old(self).offer_spec(),
            final(self).gateway_spec() == old(self).gateway_spec(),
            match r {
                Some(u) => (old(self).location_spec() matches Some(l) && u@ == old(self).gateway_spec() + l),
                None => old(self).location_spec() is None,
            },
    {
        let location = self.location.take();
        self.local_sdp = None;
        match location {
            Some(l) => {
                let mut url = self.api.gateway().to_owned();
                url.append(l.as_str());
                Some(url)
            },
            None => None,
        }
    }
}

} // verus!
