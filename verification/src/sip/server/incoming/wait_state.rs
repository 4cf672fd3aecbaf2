//! The first state of an incoming call: the INVITE was taken and no final
//! response has been sent.

use vstd::prelude::*;

verus! {

/// Wait-state flag: whether the acceptor is still held, that is whether
/// no final response has been sent yet.
#[derive(Debug, Clone, Copy, PartialEq, Eq, Structural)]
pub struct WaitState {
    pub has_acceptor: bool,
}

impl WaitState {
    pub fn new() -> (r: Self)
        ensures
            r.has_acceptor,
    {
        WaitState { has_acceptor: true }
    }
}

} // verus!
