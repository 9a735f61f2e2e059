//! The decision logic of a WebSocket echo endpoint.
//!
//! The transport (HTTP upgrade, framing, the actor that owns the socket) lives
//! outside this library. What is decided here is, for each message a client
//! sends, whether the endpoint answers and with what.

pub mod message;
pub mod session;
