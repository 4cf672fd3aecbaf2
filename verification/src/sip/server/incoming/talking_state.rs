//! The established state of an incoming call.

use vstd::prelude::*;

verus! {

/// The talking state carries nothing: the session and its media resource
/// are owned by the runtime.
#[derive(Debug, Clone, Copy, PartialEq, Eq, Structural)]
pub struct TalkingState;

} // verus!
