use vstd::prelude::*;

verus! {

/// One fragment of a message that was split over several frames.
#[derive(Debug, Clone, PartialEq, Eq)]
pub enum Item {
    /// First fragment of a text message.
    FirstText(Vec<u8>),
    /// First fragment of a binary message.
    FirstBinary(Vec<u8>),
    /// A middle fragment.
    Continue(Vec<u8>),
    /// The final fragment.
    Last(Vec<u8>),
}

/// Why a peer closes the connection: the numeric close code of the
/// WebSocket protocol and an optional human-readable description.
#[derive(Debug, Clone, PartialEq, Eq)]
pub struct CloseReason {
    pub code: u16,
    pub description: Option<String>,
}

/// A message received from a WebSocket peer, with its payload held as plain
/// values.
#[derive(Debug, Clone, PartialEq, Eq)]
pub enum Message {
    /// A complete text message.
    Text(String),
    /// A complete binary message.
    Binary(Vec<u8>),
    /// A fragment of a message.
    Continuation(Item),
    /// A ping, with the application data it carries.
    Ping(Vec<u8>),
    /// A pong, with the application data it carries.
    Pong(Vec<u8>),
    /// A close request, with an optional reason.
    Close(Option<CloseReason>),
    /// A no-op.
    Nop,
}

/// What reading the next message from the peer yields: a message, or a
/// description of the protocol error that prevented one from being read.
pub type Incoming = Result<Message, String>;

} // verus!
