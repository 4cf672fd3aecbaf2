//! The SIP side of the gateway: the media-session lifecycle and the two
//! per-call state machines.

pub mod media;
pub mod server;
