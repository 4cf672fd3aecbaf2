//! SIP-side events of an incoming call.

use vstd::prelude::*;

verus! {

/// The peer cancelled the call with CANCEL.
#[derive(Debug, Clone, Copy, PartialEq)]
pub struct Cancelled {}

/// The peer hung up with BYE.
#[derive(Debug, Clone, Copy, PartialEq)]
pub struct Bye {}

/// One SIP-side event.
#[derive(Debug, Clone, Copy, PartialEq)]
pub enum Event {
    Cancelled(Cancelled),
    Bye(Bye),
}

} // verus!
