//! The hook worker's retry rule: one POST per attempt, at most five
//! attempts, and only a connect-class failure earns another attempt.

use vstd::prelude::*;

use crate::protocol::address_book::HookContentType;

verus! {

/// The most attempts a worker spends on one request.
pub const MAX_RETRY: usize = 5;

/// One request as it sits in a worker's queue. The response channel of a
/// synchronous request lives in the runtime.
#[derive(Debug)]
pub struct HttpHookRequest<Event> {
    pub endpoint: String,
    pub headers: Vec<(String, String)>,
    pub body: Event,
    pub content_type: HookContentType,
    pub wants_response: bool,
}

/// How one delivery attempt ended.
#[derive(Debug, Clone, Copy, PartialEq, Eq, Structural)]
pub enum HookDeliveryOutcome {
    /// A 2xx answer arrived.
    Success,
    /// The connection could not be made.
    ConnectError,
    /// Any other failure, a 4xx or 5xx answer included.
    OtherError,
}

/// Whether the worker takes another attempt: only a connect failure is
/// retried, and only while fewer than five attempts were made.
pub fn hook_retry_decision(attempts_made: usize, outcome: HookDeliveryOutcome) -> (r: bool)
    ensures
        r <==> (outcome is ConnectError && attempts_made < MAX_RETRY),
{
    match outcome {
        HookDeliveryOutcome::ConnectError => attempts_made < MAX_RETRY,
        _ => false,
    }
}

/// How many attempts the worker makes when the attempts would end as
/// `outcomes` says: it walks the outcomes, stops at the first that earns
/// no retry, and never exceeds five. The result it reports is the
/// outcome of the last attempt made.
pub fn plan_delivery(outcomes: &Vec<HookDeliveryOutcome>) -> (r: (
    usize,
    HookDeliveryOutcome,
))
    requires
        outcomes@.len() > 0,
    ensures
        1 <= r.0 <= MAX_RETRY,
        r.0 <= outcomes@.len(),
        r.1 == outcomes@[r.0 - 1],
        forall|j: int| 0 <= j < r.0 - 1 ==> outcomes@[j] is ConnectError,
        r.0 < outcomes@.len() ==> !(outcomes@[r.0 - 1] is ConnectError) || r.0 == MAX_RETRY,
{
    let mut attempts: usize = 0;
    loop
        invariant
            attempts < MAX_RETRY,
            attempts < outcomes@.len(),
            forall|j: int| 0 <= j < attempts ==> outcomes@[j] is ConnectError,
        decreases MAX_RETRY - attempts,
    {
        let outcome = outcomes[attempts];
        attempts = attempts + 1;
        let retry = hook_retry_decision(attempts, outcome);
        if !retry || attempts >= outcomes.len() {
            return (attempts, outcome);
        }
    }
}

} // verus!
