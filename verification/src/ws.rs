//! The echo of a message socket: which message answers which.

use vstd::prelude::*;

verus! {

/// A message that arrives on the socket.
#[derive(Debug)]
pub enum Message {
    Text(String),
    Binary(Vec<u8>),
    Continuation,
    Ping(Vec<u8>),
    Pong(Vec<u8>),
    Close,
    Nop,
}

/// The stream of messages is broken.
#[derive(Clone, Copy, Debug, PartialEq, Eq, Structural)]
pub struct ProtocolError;

/// A message to send back.
#[derive(Debug)]
pub enum Reply {
    Pong(Vec<u8>),
    Text(String),
    Binary(Vec<u8>),
}

/// The socket that echoes.
#[derive(Clone, Copy, Debug, PartialEq, Eq, Structural)]
pub struct MyWs;

impl MyWs {
    /// The answer to `msg`: a pong with the bytes of a ping, the text of a
    /// text message, the bytes of a binary message; nothing to any other
    /// message, and nothing to an error.
    pub open spec fn answer(msg: Result<Message, ProtocolError>) -> Option<Reply> {
        match msg {
            Ok(Message::Ping(bytes)) => Some(Reply::Pong(bytes)),
            Ok(Message::Text(text)) => Some(Reply::Text(text)),
            Ok(Message::Binary(bytes)) => Some(Reply::Binary(bytes)),
            _ => None,
        }
    }

    /// Decides what to send back for `msg`.
    pub fn handle(&mut self, msg: Result<Message, ProtocolError>) -> (reply: Option<Reply>)
        ensures
            reply == MyWs::answer(msg),
            *final(self) == *old(self),
    {
        match msg {
            Ok(Message::Ping(msg)) => Some(Reply::Pong(msg)),
            Ok(Message::Text(text)) => Some(Reply::Text(text)),
            Ok(Message::Binary(bin)) => Some(Reply::Binary(bin)),
            _ => None,
        }
    }
}

} // verus!
