//! The decisions of a client context: what a connected client does when its
//! stop signal changes.
use vstd::prelude::*;
use crate::engine::timer::SignalType;
use crate::message::Message;

verus! {

/// What a client sends when its stop signal turns to `signal`: a close
/// message when told to disconnect, nothing otherwise.
pub fn signal_reaction(signal: SignalType) -> (send: Option<Message>)
    ensures
        signal == SignalType::Disconnect ==> send == Some(Message::Close(None)),
        signal != SignalType::Disconnect ==> send is None,
{
    match signal {
        SignalType::Disconnect => Some(Message::Close(None)),
        _ => None,
    }
}

} // verus!
