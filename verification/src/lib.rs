//! A SIP-to-media gateway's per-call protocol engine.
//!
//! The library holds the verified core of the gateway: the outgoing and
//! incoming call state machines, the directory-based admission check, the
//! call-manager bookkeeping, the media-session lifecycle, the hook-delivery
//! retry rules and the signed call/notify tokens. All I/O (SIP transport,
//! HTTP, the cluster overlay) is driven by a thin runtime around the library;
//! the engine itself is a family of pure step functions with contracts.

use vstd::prelude::*;

pub mod address_book;
pub mod call_manager;
pub mod hook;
pub mod protocol;
pub mod secure;
pub mod sip;
pub mod text;

verus! {

/// Where a node may discover its public IP from; the runtime queries the
/// matching metadata service at boot.
#[derive(Debug, Clone, Copy, PartialEq, Eq, Structural)]
pub enum CloudProvider {
    Aws,
    Gcp,
    Azure,
    Other,
}

} // verus!
