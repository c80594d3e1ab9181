//! The WebSocket messages that the load generator reads and writes, as plain
//! values.
use vstd::prelude::*;

verus! {

/// The close frame that may accompany a close message.
#[derive(Clone, Debug)]
pub struct CloseFrame {
    /// The close code.
    pub code: u16,
    /// The reason given for closing.
    pub reason: String,
}

/// A WebSocket message.
#[derive(Clone, Debug)]
pub enum Message {
    /// A text message.
    Text(String),
    /// A binary message.
    Binary(Vec<u8>),
    /// A ping with its payload.
    Ping(Vec<u8>),
    /// A pong with its payload.
    Pong(Vec<u8>),
    /// A close message, with or without a close frame.
    Close(Option<CloseFrame>),
    /// A raw frame, by its payload.
    Frame(Vec<u8>),
}

/// A text message whose content is `s`.
pub open spec fn is_text_of(m: Message, s: Seq<char>) -> bool {
    m matches Message::Text(t) && t@ == s
}

} // verus!
