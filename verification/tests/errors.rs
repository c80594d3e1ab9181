use wsgator::engine::error::{MpscChannelError, WatchChannelError, WsError, WsErrorKind, WsGatorError};
use wsgator::engine::error_log::{ErrorCounter, ErrorLog};

const ALL_COUNTERS: [ErrorCounter; 19] = [
    ErrorCounter::ConnectionClosed,
    ErrorCounter::AlreadyClosed,
    ErrorCounter::Io,
    ErrorCounter::Tls,
    ErrorCounter::Capacity,
    ErrorCounter::Protocol,
    ErrorCounter::WriteBufferFull,
    ErrorCounter::Utf8,
    ErrorCounter::AttackAttempt,
    ErrorCounter::Url,
    ErrorCounter::Http,
    ErrorCounter::HttpFormat,
    ErrorCounter::MpscSend,
    ErrorCounter::MpscTrySend,
    ErrorCounter::MpscSendTimeout,
    ErrorCounter::MpscTryRecv,
    ErrorCounter::WatcherSend,
    ErrorCounter::WatcherRecv,
    ErrorCounter::JoinErr,
];

fn ws(kind: WsErrorKind) -> WsGatorError {
    WsGatorError::WsError(WsError { kind, text: "x".to_string() })
}

fn cases() -> Vec<(WsGatorError, ErrorCounter)> {
    vec![
        (ws(WsErrorKind::ConnectionClosed), ErrorCounter::ConnectionClosed),
        (ws(WsErrorKind::AlreadyClosed), ErrorCounter::AlreadyClosed),
        (ws(WsErrorKind::Io), ErrorCounter::Io),
        (ws(WsErrorKind::Tls), ErrorCounter::Tls),
        (ws(WsErrorKind::Capacity), ErrorCounter::Capacity),
        (ws(WsErrorKind::Protocol), ErrorCounter::Protocol),
        (ws(WsErrorKind::WriteBufferFull), ErrorCounter::WriteBufferFull),
        (ws(WsErrorKind::Utf8), ErrorCounter::Utf8),
        (ws(WsErrorKind::AttackAttempt), ErrorCounter::AttackAttempt),
        (ws(WsErrorKind::Url), ErrorCounter::Url),
        (ws(WsErrorKind::Http), ErrorCounter::Http),
        (ws(WsErrorKind::HttpFormat), ErrorCounter::HttpFormat),
        (WsGatorError::MpscChannel(MpscChannelError::Send("a".into())), ErrorCounter::MpscSend),
        (WsGatorError::MpscChannel(MpscChannelError::TrySend("a".into())), ErrorCounter::MpscTrySend),
        (WsGatorError::MpscChannel(MpscChannelError::SendTimeout("a".into())), ErrorCounter::MpscSendTimeout),
        (WsGatorError::MpscChannel(MpscChannelError::TryRecv("a".into())), ErrorCounter::MpscTryRecv),
        (WsGatorError::WatchChannel(WatchChannelError::Send("a".into())), ErrorCounter::WatcherSend),
        (WsGatorError::WatchChannel(WatchChannelError::Recv("a".into())), ErrorCounter::WatcherRecv),
        (WsGatorError::JoinError("panicked".into()), ErrorCounter::JoinErr),
    ]
}

#[test]
fn a_new_log_is_empty() {
    let log = ErrorLog::new();
    for k in ALL_COUNTERS {
        assert_eq!(log.get(k), 0);
    }
}

#[test]
fn each_error_goes_to_its_own_counter() {
    for (error, counter) in cases() {
        let mut log = ErrorLog::new();
        log.count(error);
        for k in ALL_COUNTERS {
            assert_eq!(log.get(k), if k == counter { 1 } else { 0 }, "{:?}", k);
        }
    }
}

#[test]
fn counting_order_does_not_matter() {
    let mut a = ErrorLog::new();
    let mut b = ErrorLog::new();
    for (error, _) in cases() {
        a.count(error);
    }
    for (error, _) in cases().into_iter().rev() {
        b.count(error);
    }
    a.count(ws(WsErrorKind::Io));
    b.count(ws(WsErrorKind::Io));
    for k in ALL_COUNTERS {
        assert_eq!(a.get(k), b.get(k));
    }
    assert_eq!(a.get(ErrorCounter::Io), 2);
}

#[test]
fn descriptions_name_the_family_and_the_error() {
    assert_eq!(ws(WsErrorKind::Io).describe(), "Web Socket Error: x");
    assert_eq!(
        WsGatorError::MpscChannel(MpscChannelError::Send("SendError { .. }".into())).describe(),
        "MPSC Channel error: Send error: SendError { .. }"
    );
    assert_eq!(
        WsGatorError::MpscChannel(MpscChannelError::TrySend("Full(..)".into())).describe(),
        "MPSC Channel error: Try Send error: Full(..)"
    );
    assert_eq!(
        WsGatorError::MpscChannel(MpscChannelError::SendTimeout("Timeout(..)".into())).describe(),
        "MPSC Channel error: Send Timeout error: Timeout(..)"
    );
    assert_eq!(
        WsGatorError::MpscChannel(MpscChannelError::TryRecv("Empty".into())).describe(),
        "MPSC Channel error: Try Recieve error: Empty"
    );
    assert_eq!(
        WsGatorError::WatchChannel(WatchChannelError::Send("SendError { .. }".into())).describe(),
        "Watch Channel error: Send error: SendError { .. }"
    );
    assert_eq!(
        WsGatorError::WatchChannel(WatchChannelError::Recv("RecvError(())".into())).describe(),
        "Watch Channel error: Receive error: RecvError(())"
    );
    assert_eq!(WsGatorError::JoinError("task 3 panicked".into()).describe(), "Join error: task 3 panicked");
}

#[test]
fn conversions_wrap_the_inner_error() {
    let e: WsGatorError = WsError { kind: WsErrorKind::Url, text: "bad url".into() }.into();
    assert!(matches!(e, WsGatorError::WsError(WsError { kind: WsErrorKind::Url, .. })));
    let e: WsGatorError = MpscChannelError::TryRecv("Empty".into()).into();
    assert!(matches!(e, WsGatorError::MpscChannel(MpscChannelError::TryRecv(_))));
    let e: WsGatorError = WatchChannelError::Recv("r".into()).into();
    assert!(matches!(e, WsGatorError::WatchChannel(WatchChannelError::Recv(_))));
}

#[test]
fn each_counter_holds_the_failures_of_its_kind() {
    let mut log = ErrorLog::new();
    let mut expected = std::collections::HashMap::new();
    for round in 0..5 {
        for (i, (error, counter)) in cases().into_iter().enumerate() {
            if (i + round) % 3 != 0 {
                log.count(error);
                *expected.entry(format!("{:?}", counter)).or_insert(0u32) += 1;
            }
        }
    }
    let mut total = 0;
    for k in ALL_COUNTERS {
        let want = expected.get(&format!("{:?}", k)).copied().unwrap_or(0);
        assert_eq!(log.get(k), want);
        total += log.get(k);
    }
    assert_eq!(total, expected.values().sum::<u32>());
}

#[test]
fn the_counters_add_up_to_the_number_of_failures() {
    let mut log = ErrorLog::new();
    let mut n = 0u32;
    for round in 0..7 {
        for (i, (error, _)) in cases().into_iter().enumerate() {
            if (i * 7 + round) % 4 != 1 {
                log.count(error);
                n += 1;
            }
        }
    }
    let sum: u32 = ALL_COUNTERS.iter().map(|k| log.get(*k)).sum();
    assert_eq!(sum, n);
    assert!(n > 0);
}
