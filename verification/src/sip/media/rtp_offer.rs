//! The outbound call's RTP-engine resource: create an offer, patch the
//! remote answer in, and guarantee the delete of the created resource.

use vstd::prelude::*;

use crate::protocol::StreamingInfo;
use crate::sip::media::api::MediaApi;
use crate::sip::media::MediaEngineError;

verus! {

/// A response header that may be missing or unreadable.
#[derive(Debug, Clone, PartialEq)]
pub enum LocationHeader {
    Missing,
    Invalid,
    Present(String),
}

/// The offer session: where its resource lives once created, the local
/// SDP, and whether the remote answer was applied.
pub struct MediaRtpEngineOffer {
    api: MediaApi,
    stream: StreamingInfo,
    location: Option<String>,
    sdp: Option<Vec<u8>>,
    answered: bool,
}

impl MediaRtpEngineOffer {
    /// The resource location, when one was created.
    pub closed spec fn location_spec(&self) -> Option<Seq<char>> {
        match self.location {
            Some(l) => Some(l@),
            None => None,
        }
    }

    /// The local SDP, once the offer was created.
    pub closed spec fn sdp_spec(&self) -> Option<Seq<u8>> {
        match self.sdp {
            Some(s) => Some(s@),
            None => None,
        }
    }

    /// Whether the remote answer was applied.
    pub closed spec fn answered_spec(&self) -> bool {
        self.answered
    }

    /// The gateway this session talks to.
    pub closed spec fn gateway_spec(&self) -> Seq<char> {
        self.api.gateway_spec()
    }

    /// A created resource must be deleted before the call's task exits.
    pub open spec fn needs_delete(&self) -> bool {
        self.location_spec() is Some
    }

    /// A session holds a location exactly when it holds an SDP.
    pub open spec fn wf(&self) -> bool {
        self.location_spec() is Some <==> self.sdp_spec() is Some
    }

    pub fn new(api: MediaApi, stream: StreamingInfo) -> (r: Self)
        ensures
            r.location_spec() is None,
            r.sdp_spec() is None,
            !r.answered_spec(),
            !r.needs_delete(),
            r.wf(),
            r.gateway_spec() == api.gateway_spec(),
    {
        MediaRtpEngineOffer { api, stream, location: None, sdp: None, answered: false }
    }

    /// The streaming parameters the token request must carry.
    pub fn stream(&self) -> &StreamingInfo {
        &self.stream
    }

    /// The media API handle of this session.
    pub fn api(&self) -> &MediaApi {
        &self.api
    }

    /// The local SDP, if the offer was created.
    pub fn sdp(&self) -> (r: Option<Vec<u8>>)
        ensures
            match r {
                Some(b) => self.sdp_spec() == Some(b@),
                None => self.sdp_spec() is None,
            },
    {
        match &self.sdp {
            Some(s) => {
                let b = s.clone();
                proof {
                    assert(b@ =~= s@);
                }
                Some(b)
            },
            None => None,
        }
    }

    /// Whether the remote answer was applied.
    pub fn answered(&self) -> (r: bool)
        ensures
            r == self.answered_spec(),
    {
        self.answered
    }

    /// Reads the create-offer response: `201` with a readable Location
    /// stores the resource and the SDP; `201` without one is an error;
    /// any other status is refused. On success the session needs a
    /// delete from now on.
    pub fn on_offer_created(&mut self, status: u16, location: LocationHeader, body: Vec<u8>)
        -> (r: Result<(), MediaEngineError>)
        requires
            old(self).location_spec() is None,
            old(self).sdp_spec() is None,
        ensures
            final(self).answered_spec() == old(self).answered_spec(),
            final(self).gateway_spec() == old(self).gateway_spec(),
            match r {
                Ok(()) => status == 201 && (location matches LocationHeader::Present(l)
                    && final(self).location_spec() == Some(l@) && final(self).sdp_spec()
                    == Some(body@)) && final(self).wf(),
                Err(e) => final(self).location_spec() is None && final(self).sdp_spec()
                    is None && (if status != 201 {
                    e == MediaEngineError::InvalidStatus(status)
                } else if location is Missing {
                    e == MediaEngineError::MissingLocation
                } else {
                    location is Invalid && e == MediaEngineError::InvalidLocation
                }),
            },
    {
        if status != 201 {
            return Err(MediaEngineError::InvalidStatus(status));
        }
        match location {
            LocationHeader::Missing => Err(MediaEngineError::MissingLocation),
            LocationHeader::Invalid => Err(MediaEngineError::InvalidLocation),
            LocationHeader::Present(l) => {
                self.location = Some(l);
                self.sdp = Some(body);
                Ok(())
            },
        }
    }

    /// Reads the set-answer response: `200` marks the session answered;
    /// any other status is refused and the flag is unchanged.
    pub fn on_answer_sent(&mut self, status: u16) -> (r: Result<(), MediaEngineError>)
        requires
            old(self).location_spec() is Some,
        ensures
            final(self).location_spec() == old(self).location_spec(),
            final(self).sdp_spec() == old(self).sdp_spec(),
            final(self).gateway_spec() == old(self).gateway_spec(),
            match r {
                Ok(()) => status == 200 && final(self).answered_spec(),
                Err(e) => status != 200 && e == MediaEngineError::InvalidStatus(status)
                    && final(self).answered_spec() == old(self).answered_spec(),
            },
    {
        if status == 200 {
            self.answered = true;
            Ok(())
        } else {
            Err(MediaEngineError::InvalidStatus(status))
        }
    }

    /// The URL the remote answer is patched to: the gateway followed by
    /// the resource location.
    pub fn answer_url(&self) -> (r: Option<String>)
        ensures
            match r {
                Some(u) => (self.location_spec() matches Some(l) && u@ == self.gateway_spec()
                    + l),
                None => self.location_spec() is None,
            },
    {
        match &self.location {
            Some(l) => {
                let mut url = self.api.gateway().to_owned();
                url.append(l.as_str());
                Some(url)
            },
            None => None,
        }
    }

    /// Takes the delete URL out: returns it exactly when a resource was
    /// created, and leaves the session needing no delete. The runtime
    /// calls this on drop and issues the DELETE.
    pub fn take_delete_url(&mut self) -> (r: Option<String>)
        ensures
            !final(self).needs_delete(),
            final(self).sdp_spec() is None,
            final(self).wf(),
            final(self).answered_spec() == old(self).answered_spec(),
            final(self).gateway_spec() == old(self).gateway_spec(),
            match r {
                Some(u) => (old(self).location_spec() matches Some(l) && u@ == old(self).gateway_spec() + l),
                None => old(self).location_spec() is None,
            },
    {
        let location = self.location.take();
        self.sdp = None;
        match location {
            Some(l) => {
                let mut url = self.api.gateway().to_owned();
                url.append(l.as_str());
                Some(url)
            },
            None => None,
        }
    }
}

} // verus!
