use vstd::prelude::*;
use crate::message::{Incoming, Message};

verus! {

/// What the endpoint sends back to the peer.
#[derive(Debug, Clone, PartialEq, Eq)]
pub enum Reply {
    /// A pong carrying the given application data.
    Pong(Vec<u8>),
    /// A text message.
    Text(String),
    /// A binary message.
    Binary(Vec<u8>),
}

/// The answer owed to an incoming message: a ping is answered by a pong with
/// the same data, text and binary messages are sent back unchanged, and
/// nothing else (pongs, fragments, close requests, no-ops, protocol errors)
/// is answered.
pub open spec fn answer(msg: Incoming) -> Option<Reply> {
    match msg {
        Ok(Message::Ping(data)) => Some(Reply::Pong(data)),
        Ok(Message::Text(text)) => Some(Reply::Text(text)),
        Ok(Message::Binary(data)) => Some(Reply::Binary(data)),
        _ => None,
    }
}

/// One WebSocket echo session. It keeps no state between messages.
pub struct ExampleWS;

impl ExampleWS {
    /// Decides the reply to one incoming message.
    pub fn handle(&mut self, msg: Incoming) -> (reply: Option<Reply>)
        ensures
            reply == answer(msg),
            *final(self) == *old(self),
    {
        match msg {
            Ok(Message::Ping(data)) => Some(Reply::Pong(data)),
            Ok(Message::Text(text)) => Some(Reply::Text(text)),
            Ok(Message::Binary(data)) => Some(Reply::Binary(data)),
            _ => None,
        }
    }
}

/// The echo law: a message is answered exactly when it is a ping, a text
/// message or a binary message; a ping is answered by a pong with the same
/// data, and text and binary messages come back with the same kind and the
/// same payload. Protocol errors are never answered.
pub proof fn lemma_echo(msg: Incoming)
    ensures
        answer(msg) is Some <==> (msg matches Ok(m) && (m is Ping || m is Text || m is Binary)),
        msg matches Ok(Message::Ping(data)) ==> (answer(msg) matches Some(Reply::Pong(back))
            && back@ == data@),
        msg matches Ok(Message::Text(text)) ==> (answer(msg) matches Some(Reply::Text(back))
            && back@ == text@),
        msg matches Ok(Message::Binary(data)) ==> (answer(msg) matches Some(Reply::Binary(back))
            && back@ == data@),
        msg is Err ==> answer(msg) is None,
{
}

} // verus!
