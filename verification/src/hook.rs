//! Reliable hook delivery: a fixed pool of worker queues, each serving
//! one request at a time, with bounded retry on connect failure. The
//! workers' channels and HTTP calls live in the runtime; the library
//! fixes which queue a sender is bound to and what the worker may retry.

use vstd::prelude::*;

pub mod queue;
pub mod sender;

use crate::hook::sender::HttpHookSender;

verus! {

/// The hook-queue pool: senders are spread over `queues` workers.
#[derive(Debug, Clone, Copy, PartialEq, Eq, Structural)]
pub struct HttpHook {
    pub queues: usize,
}

/// The queue a sender lands on: a random draw taken modulo the pool
/// size, so any queue can be chosen but the bound always holds.
pub fn pick_queue(draw: u64, queues: usize) -> (r: usize)
    requires
        queues > 0,
    ensures
        r < queues,
        r as u64 == draw % (queues as u64),
{
    (draw % (queues as u64)) as usize
}

impl HttpHook {
    /// A pool of `queues` workers.
    pub fn new(queues: usize) -> (r: Self)
        requires
            queues > 0,
        ensures
            r.queues == queues,
    {
        HttpHook { queues }
    }

    /// Binds a new sender to one queue, chosen at random once; every
    /// request of this sender keeps its order on that queue.
    pub fn new_sender(&self, endpoint: &str, headers: Vec<(String, String)>) -> (r:
        HttpHookSender)
        requires
            self.queues > 0,
        ensures
            r.queue_index < self.queues,
            r.endpoint@ == endpoint@,
            r.headers@ == headers@,
    {
        let draw: u64 = rand::random();
        let queue_index = pick_queue(draw, self.queues);
        HttpHookSender { endpoint: endpoint.to_owned(), headers, queue_index }
    }
}

} // verus!
