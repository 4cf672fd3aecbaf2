//! The draining state of an outgoing call after CANCEL: the engine waits
//! for the transaction to finish.

use vstd::prelude::*;

verus! {

/// The canceling state carries nothing.
#[derive(Debug, Clone, Copy, PartialEq, Eq, Structural)]
pub struct CancelingState;

} // verus!
