//! A cheap handle bound to one hook queue: it builds the requests that
//! the worker delivers, and names the body encoding each content type
//! uses.

use vstd::prelude::*;

use crate::hook::queue::HttpHookRequest;
use crate::protocol::address_book::HookContentType;

verus! {

/// A sender bound to one queue of the pool.
#[derive(Debug)]
pub struct HttpHookSender {
    pub endpoint: String,
    pub headers: Vec<(String, String)>,
    pub queue_index: usize,
}

/// The Content-Type header value each encoding uses.
pub fn content_type_name(content_type: HookContentType) -> (r: &'static str)
    ensures
        content_type is Json ==> r@ == "application/json"@,
        content_type is Protobuf ==> r@ == "application/protobuf"@,
{
    match content_type {
        HookContentType::Json => "application/json",
        HookContentType::Protobuf => "application/protobuf",
    }
}

impl HttpHookSender {
    /// A fire-and-forget request for this sender's endpoint: the worker
    /// will deliver it and drop the result.
    pub fn make_request<Event>(&self, content_type: HookContentType, body: Event) -> (r:
        HttpHookRequest<Event>)
        ensures
            r.endpoint@ == self.endpoint@,
            r.headers@ == self.headers@,
            r.body == body,
            r.content_type == content_type,
            !r.wants_response,
    {
        HttpHookRequest {
            endpoint: self.clone_endpoint(),
            headers: self.clone_headers(),
            body,
            content_type,
            wants_response: false,
        }
    }

    /// A synchronous request: the worker will hand the result back on
    /// the runtime's response channel.
    pub fn make_sync_request<Event>(&self, content_type: HookContentType, body: Event) -> (r:
        HttpHookRequest<Event>)
        ensures
            r.endpoint@ == self.endpoint@,
            r.headers@ == self.headers@,
            r.body == body,
            r.content_type == content_type,
            r.wants_response,
    {
        HttpHookRequest {
            endpoint: self.clone_endpoint(),
            headers: self.clone_headers(),
            body,
            content_type,
            wants_response: true,
        }
    }

    fn clone_endpoint(&self) -> (r: String)
        ensures
            r@ == self.endpoint@,
    {
        self.endpoint.clone()
    }

    fn clone_headers(&self) -> (r: Vec<(String, String)>)
        ensures
            r@ == self.headers@,
    {
        let mut headers: Vec<(String, String)> = Vec::new();
        let mut i: usize = 0;
        while i < self.headers.len()
            invariant
                i <= self.headers@.len(),
                headers@ =~= self.headers@.take(i as int),
            decreases self.headers@.len() - i,
        {
            let pair = (self.headers[i].0.clone(), self.headers[i].1.clone());
            proof {
                assert(pair == self.headers@[i as int]);
            }
            headers.push(pair);
            i = i + 1;
        }
        proof {
            assert(headers@ =~= self.headers@);
        }
        headers
    }
}

} // verus!
