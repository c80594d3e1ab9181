//! Client behaviours: how a connected client answers what the server sends,
//! and what it sends of its own accord.
use vstd::prelude::*;
use vstd::string::*;
use crate::configs::config_types::BehaviourType;
use crate::engine::error::WsError;
use crate::engine::timer::TimerType;
use crate::message::{is_text_of, Message};
use crate::text::{decimal, with_number};

verus! {

/// How often a ping-pong client pings the server, in milliseconds: as often
/// as the test server pings its clients.
pub const PING_INTERVAL_MILLIS: u64 = 30000;

/// What the basic loop of a client does with one item read from the server.
#[derive(Clone, Debug)]
pub enum BasicLoopStep {
    /// Keep reading, after sending the reply if there is one.
    Continue(Option<Message>),
    /// Stop reading.
    Stop,
}

/// A loop of a client's own: every `period_millis` milliseconds it sends
/// `message` to the server, until the client is stopped.
#[derive(Clone, Debug)]
pub struct SpecialLoop {
    pub period_millis: u64,
    pub message: Message,
}

/// The default answer to a message: a pong with the payload of a ping, an
/// acknowledgement of a text, nothing to anything else.
pub open spec fn is_default_reply(message: Message, reply: Option<Message>) -> bool {
    match message {
        Message::Ping(bytes) => reply == Some(Message::Pong(bytes)),
        Message::Text(text) => reply matches Some(r) && is_text_of(
            r,
            "Server sent me text! "@ + text@,
        ),
        _ => reply is None,
    }
}

/// The greeting of client `id`: "Task", the id, "started!".
pub open spec fn is_default_greeting(id: u32, greeting: Message) -> bool {
    is_text_of(greeting, "Task "@ + decimal(id as nat) + " started!"@)
}

/// The ping that a ping-pong client sends, with "ping" as payload.
pub open spec fn is_client_ping(m: Message) -> bool {
    m matches Message::Ping(data) && data@ == seq![112u8, 105u8, 110u8, 103u8]
}

/// The default answer to a message.
pub fn default_reply(message: Message) -> (reply: Option<Message>)
    ensures
        is_default_reply(message, reply),
{
    match message {
        Message::Ping(bytes) => Some(Message::Pong(bytes)),
        Message::Text(text) => Some(
            Message::Text(String::from_str("Server sent me text! ").concat(text.as_str())),
        ),
        _ => None,
    }
}

/// The default greeting of client `id`.
pub fn default_greeting(id: u32) -> (greeting: Message)
    ensures
        is_default_greeting(id, greeting),
{
    Message::Text(with_number("Task ", id, " started!"))
}

/// How a client behaves once connected. Each spec function names what the
/// behaviour decides; each method is bound to it for every behaviour, so that
/// a caller that knows only the trait knows what the call returns.
pub trait Behaviour {
    /// Whether `reply` is the behaviour's answer to `message`.
    open spec fn replies(&self, message: Message, reply: Option<Message>) -> bool {
        is_default_reply(message, reply)
    }

    /// The kind of stop signal that the client listens to.
    open spec fn timer(&self) -> TimerType {
        TimerType::Outer
    }

    /// Whether the client writes to the server at all.
    open spec fn writes(&self) -> bool {
        true
    }

    /// Whether the client reads from the server at all.
    open spec fn reads(&self) -> bool {
        true
    }

    /// Whether `special` is the loop of the client's own (`None`: no loop).
    open spec fn runs_special_loop(&self, special: Option<SpecialLoop>) -> bool {
        special is None
    }

    /// Whether `greeting` is what client `id` sends once connected.
    open spec fn greets(&self, id: u32, greeting: Message) -> bool {
        is_default_greeting(id, greeting)
    }

    /// The answer to a message from the server, if any.
    fn on_message(&self, message: Message) -> (reply: Option<Message>)
        ensures
            self.replies(message, reply),
    ;

    /// The kind of stop signal that the client listens to.
    fn get_timer(&self) -> (timer: TimerType)
        ensures
            timer == self.timer(),
    ;

    /// Whether the client writes to the server at all.
    fn get_writer(&self) -> (writes: bool)
        ensures
            writes == self.writes(),
    ;

    /// The loop of the client's own, if it has one.
    fn get_special_loop(&self) -> (special: Option<SpecialLoop>)
        ensures
            self.runs_special_loop(special),
    ;

    /// Whether the client reads from the server at all; one that does not
    /// stays connected until it is stopped.
    fn reads_messages(&self) -> (reads: bool)
        ensures
            reads == self.reads(),
    ;

    /// The message that the client sends once connected.
    fn on_connect(&self, id: u32) -> (greeting: Message)
        ensures
            self.greets(id, greeting),
    ;

    /// One step of the basic loop: a message is answered as `on_message`
    /// answers it and reading goes on; an error or the end of the stream
    /// (`None`) stops it.
    fn basic_loop_step(&self, item: Option<Result<Message, WsError>>) -> (step: BasicLoopStep)
        ensures
            match item {
                Some(Ok(m)) => step matches BasicLoopStep::Continue(reply) && self.replies(m, reply),
                _ => step is Stop,
            },
    {
        match item {
            Some(Ok(message)) => BasicLoopStep::Continue(self.on_message(message)),
            Some(Err(_)) => BasicLoopStep::Stop,
            None => BasicLoopStep::Stop,
        }
    }
}

/// The behaviour with every default.
#[derive(Clone, Copy, Debug, PartialEq, Eq, Structural)]
pub struct DefaultBehaviour {}

/// A client that neither reads nor writes: it only holds its connection open.
#[derive(Clone, Copy, Debug, PartialEq, Eq, Structural)]
pub struct SilentBehaviour {}

/// A client that answers the server's pings and pings the server every
/// `PING_INTERVAL_MILLIS` milliseconds.
#[derive(Clone, Copy, Debug, PartialEq, Eq, Structural)]
pub struct PingPongBehaviour {}

/// A client that floods the server: "SPAM" every `spam_pause` milliseconds.
#[derive(Clone, Copy, Debug, PartialEq, Eq, Structural)]
pub struct FloodBehaviour {
    pub spam_pause: u64,
}

impl Behaviour for DefaultBehaviour {
    fn on_message(&self, message: Message) -> (reply: Option<Message>) {
        default_reply(message)
    }

    fn get_timer(&self) -> (timer: TimerType) {
        TimerType::Outer
    }

    fn get_writer(&self) -> (writes: bool) {
        true
    }

    fn get_special_loop(&self) -> (special: Option<SpecialLoop>) {
        None
    }

    fn reads_messages(&self) -> (reads: bool) {
        true
    }

    fn on_connect(&self, id: u32) -> (greeting: Message) {
        default_greeting(id)
    }
}

impl Behaviour for SilentBehaviour {
    open spec fn writes(&self) -> bool {
        false
    }

    open spec fn reads(&self) -> bool {
        false
    }

    fn on_message(&self, message: Message) -> (reply: Option<Message>) {
        default_reply(message)
    }

    fn get_timer(&self) -> (timer: TimerType) {
        TimerType::Outer
    }

    fn get_writer(&self) -> (writes: bool) {
        false
    }

    fn get_special_loop(&self) -> (special: Option<SpecialLoop>) {
        None
    }

    fn reads_messages(&self) -> (reads: bool) {
        false
    }

    fn on_connect(&self, id: u32) -> (greeting: Message) {
        default_greeting(id)
    }
}

impl Behaviour for PingPongBehaviour {
    open spec fn runs_special_loop(&self, special: Option<SpecialLoop>) -> bool {
        special matches Some(l) && l.period_millis == PING_INTERVAL_MILLIS && is_client_ping(
            l.message,
        )
    }

    fn on_message(&self, message: Message) -> (reply: Option<Message>) {
        default_reply(message)
    }

    fn get_timer(&self) -> (timer: TimerType) {
        TimerType::Outer
    }

    fn get_writer(&self) -> (writes: bool) {
        true
    }

    fn get_special_loop(&self) -> (special: Option<SpecialLoop>) {
        Some(
            SpecialLoop {
                period_millis: PING_INTERVAL_MILLIS,
                message: Message::Ping(vec![112u8, 105u8, 110u8, 103u8]),
            },
        )
    }

    fn reads_messages(&self) -> (reads: bool) {
        true
    }

    fn on_connect(&self, id: u32) -> (greeting: Message) {
        default_greeting(id)
    }
}

impl Behaviour for FloodBehaviour {
    open spec fn runs_special_loop(&self, special: Option<SpecialLoop>) -> bool {
        special matches Some(l) && l.period_millis == self.spam_pause && is_text_of(
            l.message,
            "SPAM"@,
        )
    }

    fn on_message(&self, message: Message) -> (reply: Option<Message>) {
        default_reply(message)
    }

    fn get_timer(&self) -> (timer: TimerType) {
        TimerType::Outer
    }

    fn get_writer(&self) -> (writes: bool) {
        true
    }

    fn get_special_loop(&self) -> (special: Option<SpecialLoop>) {
        Some(
            SpecialLoop {
                period_millis: self.spam_pause,
                message: Message::Text(String::from_str("SPAM")),
            },
        )
    }

    fn reads_messages(&self) -> (reads: bool) {
        true
    }

    fn on_connect(&self, id: u32) -> (greeting: Message) {
        default_greeting(id)
    }
}

/// Any of the behaviours that the command line can choose.
#[derive(Clone, Copy, Debug, PartialEq, Eq, Structural)]
pub enum AnyBehaviour {
    Default(DefaultBehaviour),
    Silent(SilentBehaviour),
    PingPong(PingPongBehaviour),
    Flood(FloodBehaviour),
}

impl Behaviour for AnyBehaviour {
    open spec fn replies(&self, message: Message, reply: Option<Message>) -> bool {
        match self {
            AnyBehaviour::Default(b) => b.replies(message, reply),
            AnyBehaviour::Silent(b) => b.replies(message, reply),
            AnyBehaviour::PingPong(b) => b.replies(message, reply),
            AnyBehaviour::Flood(b) => b.replies(message, reply),
        }
    }

    open spec fn timer(&self) -> TimerType {
        match self {
            AnyBehaviour::Default(b) => b.timer(),
            AnyBehaviour::Silent(b) => b.timer(),
            AnyBehaviour::PingPong(b) => b.timer(),
            AnyBehaviour::Flood(b) => b.timer(),
        }
    }

    open spec fn writes(&self) -> bool {
        match self {
            AnyBehaviour::Default(b) => b.writes(),
            AnyBehaviour::Silent(b) => b.writes(),
            AnyBehaviour::PingPong(b) => b.writes(),
            AnyBehaviour::Flood(b) => b.writes(),
        }
    }

    open spec fn reads(&self) -> bool {
        match self {
            AnyBehaviour::Default(b) => b.reads(),
            AnyBehaviour::Silent(b) => b.reads(),
            AnyBehaviour::PingPong(b) => b.reads(),
            AnyBehaviour::Flood(b) => b.reads(),
        }
    }

    open spec fn runs_special_loop(&self, special: Option<SpecialLoop>) -> bool {
        match self {
            AnyBehaviour::Default(b) => b.runs_special_loop(special),
            AnyBehaviour::Silent(b) => b.runs_special_loop(special),
            AnyBehaviour::PingPong(b) => b.runs_special_loop(special),
            AnyBehaviour::Flood(b) => b.runs_special_loop(special),
        }
    }

    open spec fn greets(&self, id: u32, greeting: Message) -> bool {
        match self {
            AnyBehaviour::Default(b) => b.greets(id, greeting),
            AnyBehaviour::Silent(b) => b.greets(id, greeting),
            AnyBehaviour::PingPong(b) => b.greets(id, greeting),
            AnyBehaviour::Flood(b) => b.greets(id, greeting),
        }
    }

    fn on_message(&self, message: Message) -> (reply: Option<Message>) {
        match self {
            AnyBehaviour::Default(b) => b.on_message(message),
            AnyBehaviour::Silent(b) => b.on_message(message),
            AnyBehaviour::PingPong(b) => b.on_message(message),
            AnyBehaviour::Flood(b) => b.on_message(message),
        }
    }

    fn get_timer(&self) -> (timer: TimerType) {
        match self {
            AnyBehaviour::Default(b) => b.get_timer(),
            AnyBehaviour::Silent(b) => b.get_timer(),
            AnyBehaviour::PingPong(b) => b.get_timer(),
            AnyBehaviour::Flood(b) => b.get_timer(),
        }
    }

    fn get_writer(&self) -> (writes: bool) {
        match self {
            AnyBehaviour::Default(b) => b.get_writer(),
            AnyBehaviour::Silent(b) => b.get_writer(),
            AnyBehaviour::PingPong(b) => b.get_writer(),
            AnyBehaviour::Flood(b) => b.get_writer(),
        }
    }

    fn get_special_loop(&self) -> (special: Option<SpecialLoop>) {
        match self {
            AnyBehaviour::Default(b) => b.get_special_loop(),
            AnyBehaviour::Silent(b) => b.get_special_loop(),
            AnyBehaviour::PingPong(b) => b.get_special_loop(),
            AnyBehaviour::Flood(b) => b.get_special_loop(),
        }
    }

    fn reads_messages(&self) -> (reads: bool) {
        match self {
            AnyBehaviour::Default(b) => b.reads_messages(),
            AnyBehaviour::Silent(b) => b.reads_messages(),
            AnyBehaviour::PingPong(b) => b.reads_messages(),
            AnyBehaviour::Flood(b) => b.reads_messages(),
        }
    }

    fn on_connect(&self, id: u32) -> (greeting: Message) {
        match self {
            AnyBehaviour::Default(b) => b.on_connect(id),
            AnyBehaviour::Silent(b) => b.on_connect(id),
            AnyBehaviour::PingPong(b) => b.on_connect(id),
            AnyBehaviour::Flood(b) => b.on_connect(id),
        }
    }
}

/// The behaviour that a behaviour kind stands for: the default one when none
/// is chosen, and a flooding one that floods every `spam_pause` milliseconds.
pub open spec fn behaviour_of(kind: BehaviourType, spam_pause: u64) -> AnyBehaviour {
    match kind {
        BehaviourType::NoChoice => AnyBehaviour::Default(DefaultBehaviour {}),
        BehaviourType::Silent => AnyBehaviour::Silent(SilentBehaviour {}),
        BehaviourType::PingPong => AnyBehaviour::PingPong(PingPongBehaviour {}),
        BehaviourType::Flood => AnyBehaviour::Flood(FloodBehaviour { spam_pause }),
    }
}

/// A fresh behaviour of the kind chosen.
pub fn make_behaviour(kind: BehaviourType, spam_pause: u64) -> (behaviour: AnyBehaviour)
    ensures
        behaviour == behaviour_of(kind, spam_pause),
{
    match kind {
        BehaviourType::NoChoice => AnyBehaviour::Default(DefaultBehaviour {}),
        BehaviourType::Silent => AnyBehaviour::Silent(SilentBehaviour {}),
        BehaviourType::PingPong => AnyBehaviour::PingPong(PingPongBehaviour {}),
        BehaviourType::Flood => AnyBehaviour::Flood(FloodBehaviour { spam_pause }),
    }
}

} // verus!
