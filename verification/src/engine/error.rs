//! The errors of a load run, as plain values.
use vstd::prelude::*;
use vstd::string::*;

verus! {

/// The kinds of WebSocket failure.
#[derive(Clone, Copy, Debug, PartialEq, Eq, Structural)]
pub enum WsErrorKind {
    ConnectionClosed,
    AlreadyClosed,
    Io,
    Tls,
    Capacity,
    Protocol,
    WriteBufferFull,
    Utf8,
    AttackAttempt,
    Url,
    Http,
    HttpFormat,
}

/// A WebSocket failure: its kind, and its text as the WebSocket library
/// renders it.
#[derive(Clone, Debug)]
pub struct WsError {
    pub kind: WsErrorKind,
    pub text: String,
}

/// A failure of a multi-producer channel of messages. Each variant carries the
/// channel error as the channel library renders it for debugging.
#[derive(Clone, Debug)]
pub enum MpscChannelError {
    Send(String),
    TrySend(String),
    SendTimeout(String),
    TryRecv(String),
}

/// A failure of a watch channel of stop signals. Each variant carries the
/// channel error as the channel library renders it for debugging.
#[derive(Clone, Debug)]
pub enum WatchChannelError {
    Send(String),
    Recv(String),
}

/// Any failure of a load run.
#[derive(Clone, Debug)]
pub enum WsGatorError {
    MpscChannel(MpscChannelError),
    WatchChannel(WatchChannelError),
    WsError(WsError),
    /// A task that could not be joined, with the join error's text.
    JoinError(String),
}

/// The text of a channel failure: what failed, then the channel error.
pub open spec fn mpsc_text(e: MpscChannelError) -> Seq<char> {
    match e {
        MpscChannelError::Send(d) => "Send error: "@ + d@,
        MpscChannelError::TrySend(d) => "Try Send error: "@ + d@,
        MpscChannelError::SendTimeout(d) => "Send Timeout error: "@ + d@,
        MpscChannelError::TryRecv(d) => "Try Recieve error: "@ + d@,
    }
}

/// The text of a watch channel failure.
pub open spec fn watch_text(e: WatchChannelError) -> Seq<char> {
    match e {
        WatchChannelError::Send(d) => "Send error: "@ + d@,
        WatchChannelError::Recv(d) => "Receive error: "@ + d@,
    }
}

/// The text of a failure of a load run: its family, then its own text.
pub open spec fn gator_text(e: WsGatorError) -> Seq<char> {
    match e {
        WsGatorError::MpscChannel(inner) => "MPSC Channel error: "@ + mpsc_text(inner),
        WsGatorError::WatchChannel(inner) => "Watch Channel error: "@ + watch_text(inner),
        WsGatorError::WsError(inner) => "Web Socket Error: "@ + inner.text@,
        WsGatorError::JoinError(d) => "Join error: "@ + d@,
    }
}

impl MpscChannelError {
    /// The failure as text.
    pub fn describe(&self) -> (s: String)
        ensures
            s@ == mpsc_text(*self),
    {
        match self {
            MpscChannelError::Send(d) => String::from_str("Send error: ").concat(d.as_str()),
            MpscChannelError::TrySend(d) => String::from_str("Try Send error: ").concat(d.as_str()),
            MpscChannelError::SendTimeout(d) => String::from_str("Send Timeout error: ").concat(
                d.as_str(),
            ),
            MpscChannelError::TryRecv(d) => String::from_str("Try Recieve error: ").concat(
                d.as_str(),
            ),
        }
    }
}

impl WatchChannelError {
    /// The failure as text.
    pub fn describe(&self) -> (s: String)
        ensures
            s@ == watch_text(*self),
    {
        match self {
            WatchChannelError::Send(d) => String::from_str("Send error: ").concat(d.as_str()),
            WatchChannelError::Recv(d) => String::from_str("Receive error: ").concat(d.as_str()),
        }
    }
}

impl WsGatorError {
    /// The failure as text.
    pub fn describe(&self) -> (s: String)
        ensures
            s@ == gator_text(*self),
    {
        match self {
            WsGatorError::MpscChannel(inner) => String::from_str("MPSC Channel error: ").concat(
                inner.describe().as_str(),
            ),
            WsGatorError::WatchChannel(inner) => String::from_str("Watch Channel error: ").concat(
                inner.describe().as_str(),
            ),
            WsGatorError::WsError(inner) => String::from_str("Web Socket Error: ").concat(
                inner.text.as_str(),
            ),
            WsGatorError::JoinError(d) => String::from_str("Join error: ").concat(d.as_str()),
        }
    }
}

impl From<WsError> for WsGatorError {
    fn from(value: WsError) -> (e: Self) {
        WsGatorError::WsError(value)
    }
}

impl vstd::std_specs::convert::FromSpecImpl<WsError> for WsGatorError {
    open spec fn obeys_from_spec() -> bool {
        true
    }

    open spec fn from_spec(v: WsError) -> WsGatorError {
        WsGatorError::WsError(v)
    }
}

impl From<MpscChannelError> for WsGatorError {
    fn from(value: MpscChannelError) -> (e: Self) {
        WsGatorError::MpscChannel(value)
    }
}

impl vstd::std_specs::convert::FromSpecImpl<MpscChannelError> for WsGatorError {
    open spec fn obeys_from_spec() -> bool {
        true
    }

    open spec fn from_spec(v: MpscChannelError) -> WsGatorError {
        WsGatorError::MpscChannel(v)
    }
}

impl From<WatchChannelError> for WsGatorError {
    fn from(value: WatchChannelError) -> (e: Self) {
        WsGatorError::WatchChannel(value)
    }
}

impl vstd::std_specs::convert::FromSpecImpl<WatchChannelError> for WsGatorError {
    open spec fn obeys_from_spec() -> bool {
        true
    }

    open spec fn from_spec(v: WatchChannelError) -> WsGatorError {
        WsGatorError::WatchChannel(v)
    }
}

} // verus!
