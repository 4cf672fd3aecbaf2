//! The per-call protocol engines. Each call owns one engine; the runtime
//! feeds it SIP-side inputs and control commands and performs the actions
//! it returns.

use vstd::prelude::*;

pub mod incoming;
pub mod outgoing;

verus! {

/// Failures of the SIP server itself.
#[derive(Debug, Clone, Copy, PartialEq, Eq, Structural)]
pub enum SipServerError {
    Unknown,
}

} // verus!
