//! Stop signals: the watch channel through which a batch of clients is told
//! to disconnect.
use vstd::prelude::*;
use tokio::sync::watch;
use tokio::sync::watch::{Receiver as WatchReceiver, Sender as WatchSender};

verus! {

#[verifier::external_type_specification]
#[verifier::external_body]
#[verifier::reject_recursive_types(T)]
pub struct ExWatchSender<T>(tokio::sync::watch::Sender<T>);

#[verifier::external_type_specification]
#[verifier::external_body]
#[verifier::reject_recursive_types(T)]
pub struct ExWatchReceiver<T>(tokio::sync::watch::Receiver<T>);

/// Whether the clients of a batch get a stop signal from outside.
#[derive(Clone, Copy, Debug, PartialEq, Eq, Structural)]
pub enum TimerType {
    /// No stop signal.
    Empty,
    /// A stop signal sent by a timer outside the clients.
    Outer,
}

/// The signals that a batch of clients can receive.
#[derive(Clone, Copy, Debug, PartialEq, Eq, Structural)]
pub enum SignalType {
    Work,
    Disconnect,
    Reconnect,
    Cancel,
}

/// Calls `tokio::sync::watch::channel` with `init` as the value that the
/// channel starts with. The channel's value changes whenever the sender sends,
/// from whichever task holds it, so nothing is stated of what the receiver
/// reads.
#[verifier::external_body]
fn signal_channel(init: SignalType) -> (channel: (WatchSender<SignalType>, WatchReceiver<SignalType>)) {
    watch::channel(init)
}

/// Calls `Clone::clone` of `tokio::sync::watch::Receiver`. The clone holds
/// the same shared channel and the same seen version as `rx`, so it is stated
/// to be the same receiver value; what either reads is left unstated, for the
/// reason given at `signal_channel`.
#[verifier::external_body]
fn clone_receiver(rx: &WatchReceiver<SignalType>) -> (copy: WatchReceiver<SignalType>)
    ensures
        copy == *rx,
{
    rx.clone()
}

/// The stop signal of a batch: the sending end, until it is handed to the
/// timer, and a receiving end that every client clones.
pub struct Signal {
    reciever: Option<WatchReceiver<SignalType>>,
    sender: Option<WatchSender<SignalType>>,
    timer_type: TimerType,
}

impl Signal {
    /// The sending end that the signal still holds, if any.
    pub closed spec fn sender_end(self) -> Option<WatchSender<SignalType>> {
        self.sender
    }

    /// The receiving end of the signal, if it has one.
    pub closed spec fn receiver_end(self) -> Option<WatchReceiver<SignalType>> {
        self.reciever
    }

    /// Whether the signal still holds its sending end.
    pub open spec fn has_sender(self) -> bool {
        self.sender_end() is Some
    }

    /// Whether the signal has a receiving end.
    pub open spec fn has_receiver(self) -> bool {
        self.receiver_end() is Some
    }

    /// The kind of timer the signal was made for.
    pub closed spec fn kind(self) -> TimerType {
        self.timer_type
    }

    /// A signal for `timer_type`: with no channel for `Empty`, and with a
    /// channel that starts at `Work` for `Outer`.
    pub fn new(timer_type: TimerType) -> (signal: Self)
        ensures
            signal.kind() == timer_type,
            signal.has_sender() == (timer_type == TimerType::Outer),
            signal.has_receiver() == (timer_type == TimerType::Outer),
    {
        match timer_type {
            TimerType::Empty => Signal { reciever: None, sender: None, timer_type },
            TimerType::Outer => {
                let (stop_tx, stop_rx) = signal_channel(SignalType::Work);
                Signal { reciever: Some(stop_rx), sender: Some(stop_tx), timer_type }
            },
        }
    }

    /// Hands out the signal's own sending end, once: a second call gets
    /// nothing. The receiving end stays as it was.
    pub fn get_outer_timer(&mut self) -> (sender: Option<WatchSender<SignalType>>)
        ensures
            sender == old(self).sender_end(),
            final(self).sender_end() is None,
            final(self).receiver_end() == old(self).receiver_end(),
            final(self).kind() == old(self).kind(),
    {
        self.sender.take()
    }

    /// The signal's own receiving end, cloned, if the signal has one.
    pub fn get_outer_timer_reciever(&self) -> (receiver: Option<WatchReceiver<SignalType>>)
        ensures
            receiver == self.receiver_end(),
    {
        match &self.reciever {
            Some(rx) => Some(clone_receiver(rx)),
            None => None,
        }
    }
}

} // verus!
