//! Attack strategies that drive each connection from one loop: the loop
//! answers the server, stops at the stop signal and, for the flood strategy,
//! sends a message at every tick.
use vstd::prelude::*;
use std::sync::Arc;
pub use crate::configs::common_config::CommonConfig;
use crate::engine::error::WsError;
use crate::message::{is_text_of, Message};
use crate::text::{decimal, with_number};

verus! {

/// The attack strategies of this family that can be chosen.
#[derive(Clone, Copy, Debug, PartialEq, Eq, Structural)]
pub enum AttackStrategyType {
    Flat,
    RampUp,
    Flood,
}

/// What a connection loop wakes up for.
#[derive(Clone, Debug)]
pub enum ConnectionEvent {
    /// The next item from the server; `None` when the stream has ended.
    Incoming(Option<Result<Message, WsError>>),
    /// The flood timer ticked.
    SpamTick,
    /// The stop signal changed.
    StopSignal,
}

/// What a connection loop does about an event.
#[derive(Clone, Debug)]
pub struct ConnectionReaction {
    /// The message to send, if any.
    pub send: Option<Message>,
    /// Whether the loop goes on.
    pub proceed: bool,
}

/// How a connection handles an item from the server by default: it answers a
/// ping with a pong of the same payload and goes on, goes on after a text, and
/// stops on anything else, on an error and at the end of the stream.
pub open spec fn default_handling(msg: Option<Result<Message, WsError>>) -> (bool, Option<Message>) {
    match msg {
        Some(Ok(Message::Ping(bytes))) => (true, Some(Message::Pong(bytes))),
        Some(Ok(Message::Text(_))) => (true, None),
        _ => (false, None),
    }
}

/// Handles an item from the server the default way.
pub fn handle_incoming(msg: Option<Result<Message, WsError>>) -> (handled: (bool, Option<Message>))
    ensures
        handled == default_handling(msg),
{
    match msg {
        Some(Ok(message)) => match message {
            Message::Ping(bytes) => (true, Some(Message::Pong(bytes))),
            Message::Text(_) => (true, None),
            Message::Close(_) => (false, None),
            _ => (false, None),
        },
        Some(Err(_)) => (false, None),
        None => (false, None),
    }
}

/// An attack strategy: its configuration and how its connections react. Each
/// spec function names what the strategy decides; each method is bound to it
/// for every strategy.
pub trait AttackStrategy {
    /// The configuration of the strategy.
    spec fn common_config(&self) -> Arc<CommonConfig>;

    /// How a connection handles an item from the server.
    open spec fn handling(&self, msg: Option<Result<Message, WsError>>) -> (bool, Option<Message>) {
        default_handling(msg)
    }

    /// The period of the flood timer in milliseconds, for a strategy that
    /// floods.
    open spec fn flood_period(&self) -> Option<u64> {
        None
    }

    /// Whether `send` is what connection `connection_number` sends at a tick
    /// of the flood timer.
    open spec fn spams(&self, connection_number: u32, send: Option<Message>) -> bool {
        send is None
    }

    /// The configuration of the strategy.
    fn get_common_config(&self) -> (config: Arc<CommonConfig>)
        ensures
            config == self.common_config(),
    ;

    /// Handles an item from the server on connection `connection_number`:
    /// whether to go on, and what to send back.
    fn handle_messages(&self, msg: Option<Result<Message, WsError>>, connection_number: u32) -> (handled: (bool, Option<Message>))
        ensures
            handled == self.handling(msg),
    ;

    /// The period of the flood timer in milliseconds, if the strategy floods.
    fn spam_period(&self) -> (period: Option<u64>)
        ensures
            period == self.flood_period(),
    ;

    /// What connection `connection_number` sends at a tick of the flood timer.
    fn spam_message(&self, connection_number: u32) -> (send: Option<Message>)
        ensures
            self.spams(connection_number, send),
    ;

    /// The reaction of connection `connection_number` to an event: what the
    /// server sends is handled as `handle_messages` handles it; at a tick of
    /// the flood timer the spam message goes out and the loop goes on; on the
    /// stop signal a close message goes out and the loop stops.
    fn react(&self, event: ConnectionEvent, connection_number: u32) -> (reaction: ConnectionReaction)
        ensures
            match event {
                ConnectionEvent::Incoming(msg) => (reaction.proceed, reaction.send) == self.handling(msg),
                ConnectionEvent::SpamTick => reaction.proceed && self.spams(connection_number, reaction.send),
                ConnectionEvent::StopSignal => !reaction.proceed && reaction.send == Some(Message::Close(None)),
            },
    {
        match event {
            ConnectionEvent::Incoming(msg) => {
                let (proceed, send) = self.handle_messages(msg, connection_number);
                ConnectionReaction { send, proceed }
            },
            ConnectionEvent::SpamTick => ConnectionReaction {
                send: self.spam_message(connection_number),
                proceed: true,
            },
            ConnectionEvent::StopSignal => ConnectionReaction {
                send: Some(Message::Close(None)),
                proceed: false,
            },
        }
    }
}

/// Every connection at once.
pub struct FlatStrategy {
    pub common_config: Arc<CommonConfig>,
}

/// Connections brought up over time.
pub struct RampUpStrategy {
    pub common_config: Arc<CommonConfig>,
}

/// Connections that keep sending to the server, every `spam_pause`
/// milliseconds.
pub struct FloodStrategy {
    pub common_config: Arc<CommonConfig>,
    pub spam_pause: u64,
}

impl AttackStrategy for FlatStrategy {
    open spec fn common_config(&self) -> Arc<CommonConfig> {
        self.common_config
    }

    fn get_common_config(&self) -> (config: Arc<CommonConfig>) {
        self.common_config.clone()
    }

    fn handle_messages(&self, msg: Option<Result<Message, WsError>>, connection_number: u32) -> (handled: (bool, Option<Message>)) {
        handle_incoming(msg)
    }

    fn spam_period(&self) -> (period: Option<u64>) {
        None
    }

    fn spam_message(&self, connection_number: u32) -> (send: Option<Message>) {
        None
    }
}

impl AttackStrategy for RampUpStrategy {
    open spec fn common_config(&self) -> Arc<CommonConfig> {
        self.common_config
    }

    fn get_common_config(&self) -> (config: Arc<CommonConfig>) {
        self.common_config.clone()
    }

    fn handle_messages(&self, msg: Option<Result<Message, WsError>>, connection_number: u32) -> (handled: (bool, Option<Message>)) {
        handle_incoming(msg)
    }

    fn spam_period(&self) -> (period: Option<u64>) {
        None
    }

    fn spam_message(&self, connection_number: u32) -> (send: Option<Message>) {
        None
    }
}

impl AttackStrategy for FloodStrategy {
    open spec fn common_config(&self) -> Arc<CommonConfig> {
        self.common_config
    }

    open spec fn flood_period(&self) -> Option<u64> {
        Some(self.spam_pause)
    }

    /// At each tick of the flood timer, a connection sends "SPAM! From
    /// connection" and its number.
    open spec fn spams(&self, connection_number: u32, send: Option<Message>) -> bool {
        send matches Some(m) && is_text_of(m, "SPAM! From connection "@ + decimal(connection_number as nat))
    }

    fn get_common_config(&self) -> (config: Arc<CommonConfig>) {
        self.common_config.clone()
    }

    fn handle_messages(&self, msg: Option<Result<Message, WsError>>, connection_number: u32) -> (handled: (bool, Option<Message>)) {
        handle_incoming(msg)
    }

    fn spam_period(&self) -> (period: Option<u64>) {
        Some(self.spam_pause)
    }

    fn spam_message(&self, connection_number: u32) -> (send: Option<Message>) {
        proof {
            reveal_strlit("");
        }
        let text = with_number("SPAM! From connection ", connection_number, "");
        assert(text@ =~= "SPAM! From connection "@ + decimal(connection_number as nat));
        Some(Message::Text(text))
    }
}

} // verus!
