//! Action requests addressed to an outgoing call.

use vstd::prelude::*;

verus! {

/// End the call.
#[derive(Debug, Clone, Copy, PartialEq)]
pub struct End {}

/// One action on an outgoing call.
#[derive(Debug, Clone, Copy, PartialEq)]
pub enum Action {
    End(End),
}

} // verus!
