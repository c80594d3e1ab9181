use wsgator::engine::timer::{Signal, SignalType, TimerType};

#[test]
fn an_outer_signal_hands_its_sender_out_once() {
    let mut signal = Signal::new(TimerType::Outer);
    assert!(signal.get_outer_timer_reciever().is_some());
    let sender = signal.get_outer_timer();
    assert!(sender.is_some());
    assert!(signal.get_outer_timer().is_none());
    assert!(signal.get_outer_timer_reciever().is_some());
}

#[test]
fn an_empty_signal_has_no_channel() {
    let mut signal = Signal::new(TimerType::Empty);
    assert!(signal.get_outer_timer_reciever().is_none());
    assert!(signal.get_outer_timer().is_none());
}

#[test]
fn the_channel_starts_at_work_and_carries_a_disconnect() {
    let mut signal = Signal::new(TimerType::Outer);
    let receiver = signal.get_outer_timer_reciever().unwrap();
    assert_eq!(*receiver.borrow(), SignalType::Work);
    let sender = signal.get_outer_timer().unwrap();
    sender.send(SignalType::Disconnect).unwrap();
    assert_eq!(*receiver.borrow(), SignalType::Disconnect);
    let other = signal.get_outer_timer_reciever().unwrap();
    assert_eq!(*other.borrow(), SignalType::Disconnect);
}
