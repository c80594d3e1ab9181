//! A small WebSocket server to aim the load at: how it answers its clients
//! and how it counts them.
use vstd::prelude::*;
use vstd::string::*;
use crate::engine::error::WsError;
use crate::message::{is_text_of, Message};

verus! {

/// What the server does about an item read from a client.
#[derive(Clone, Debug)]
pub enum ServerReaction {
    /// Send this message back.
    Reply(Message),
    /// Note that the client answered a ping.
    PongReceived,
    /// Close the connection.
    Shutdown,
    /// Do nothing.
    Ignore,
}

/// What the server does about an item read from a client: it echoes a text
/// with "Server response: " before it, answers a ping with a pong of the same
/// payload, notes a pong, closes on a close, and ignores anything else.
pub fn react_to_client(item: Result<Message, WsError>) -> (reaction: ServerReaction)
    ensures
        match item {
            Ok(Message::Text(t)) => reaction matches ServerReaction::Reply(r) && is_text_of(
                r,
                "Server response: "@ + t@,
            ),
            Ok(Message::Ping(data)) => reaction == ServerReaction::Reply(Message::Pong(data)),
            Ok(Message::Pong(_)) => reaction is PongReceived,
            Ok(Message::Close(_)) => reaction is Shutdown,
            _ => reaction is Ignore,
        },
{
    match item {
        Ok(Message::Text(txt)) => ServerReaction::Reply(
            Message::Text(String::from_str("Server response: ").concat(txt.as_str())),
        ),
        Ok(Message::Ping(data)) => ServerReaction::Reply(Message::Pong(data)),
        Ok(Message::Pong(_)) => ServerReaction::PongReceived,
        Ok(Message::Close(_)) => ServerReaction::Shutdown,
        _ => ServerReaction::Ignore,
    }
}

/// The ping that the server sends to each client, with "ping" as payload.
pub fn server_ping() -> (ping: Message)
    ensures
        ping matches Message::Ping(data) && data@ == seq![112u8, 105u8, 110u8, 103u8],
{
    Message::Ping(vec![112u8, 105u8, 110u8, 103u8])
}

/// How long the server waits for the answer to its ping, in milliseconds.
pub const PONG_TIMEOUT_MILLIS: u64 = 10000;

/// What the server does once it has waited for the answer to a ping: it
/// closes the connection when `PONG_TIMEOUT_MILLIS` passed first, and goes on
/// otherwise.
pub fn after_ping(timed_out: bool) -> (reaction: ServerReaction)
    ensures
        timed_out ==> reaction is Shutdown,
        !timed_out ==> reaction is Ignore,
{
    if timed_out {
        ServerReaction::Shutdown
    } else {
        ServerReaction::Ignore
    }
}

/// The number of clients connected to the server.
#[derive(Debug)]
pub struct ConnectionCounter {
    count: usize,
}

impl ConnectionCounter {
    /// The number of clients connected.
    pub closed spec fn value(self) -> nat {
        self.count as nat
    }

    /// No client connected.
    pub fn new() -> (counter: Self)
        ensures
            counter.value() == 0,
    {
        ConnectionCounter { count: 0 }
    }

    /// The number of clients connected.
    pub fn current(&self) -> (count: usize)
        ensures
            count == self.value(),
    {
        self.count
    }

    /// One more client connected.
    pub fn opened(&mut self)
        requires
            old(self).value() < usize::MAX,
        ensures
            final(self).value() == old(self).value() + 1,
    {
        self.count = self.count + 1;
    }

    /// One client gone.
    pub fn closed(&mut self)
        requires
            old(self).value() > 0,
        ensures
            final(self).value() == old(self).value() - 1,
    {
        self.count = self.count - 1;
    }
}

} // verus!
