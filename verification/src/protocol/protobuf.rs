//! Wire-level message model shared by the hook, pub/sub and WebSocket
//! paths. The runtime encodes these as JSON or protobuf at the edge.

pub mod sip_gateway;
