//! The error log: one counter per kind of failure.
use vstd::prelude::*;
use crate::engine::error::{MpscChannelError, WatchChannelError, WsError, WsErrorKind, WsGatorError};

verus! {

/// The counters of the error log, one per kind of failure.
#[derive(Clone, Copy, Debug, PartialEq, Eq, Structural)]
pub enum ErrorCounter {
    ConnectionClosed,
    AlreadyClosed,
    Io,
    Tls,
    Capacity,
    Protocol,
    WriteBufferFull,
    Utf8,
    AttackAttempt,
    Url,
    Http,
    HttpFormat,
    MpscSend,
    MpscTrySend,
    MpscSendTimeout,
    MpscTryRecv,
    WatcherSend,
    WatcherRecv,
    JoinErr,
}

/// Counts of the failures met in a load run. A counter that passes its
/// largest value starts again from zero.
#[derive(Debug)]
pub struct ErrorLog {
    connection_closed: u32,
    already_closed: u32,
    io: u32,
    tls: u32,
    capacity: u32,
    protocol: u32,
    write_buffer_full: u32,
    utf8: u32,
    attack_attempt: u32,
    url: u32,
    http: u32,
    http_format: u32,
    mpsc_send: u32,
    mpsc_try_send: u32,
    mpsc_send_timeout: u32,
    mpsc_try_recv: u32,
    watcher_send: u32,
    watcher_recv: u32,
    join_err: u32,
}

/// The counter that a WebSocket failure goes to.
pub open spec fn ws_counter(kind: WsErrorKind) -> ErrorCounter {
    match kind {
        WsErrorKind::ConnectionClosed => ErrorCounter::ConnectionClosed,
        WsErrorKind::AlreadyClosed => ErrorCounter::AlreadyClosed,
        WsErrorKind::Io => ErrorCounter::Io,
        WsErrorKind::Tls => ErrorCounter::Tls,
        WsErrorKind::Capacity => ErrorCounter::Capacity,
        WsErrorKind::Protocol => ErrorCounter::Protocol,
        WsErrorKind::WriteBufferFull => ErrorCounter::WriteBufferFull,
        WsErrorKind::Utf8 => ErrorCounter::Utf8,
        WsErrorKind::AttackAttempt => ErrorCounter::AttackAttempt,
        WsErrorKind::Url => ErrorCounter::Url,
        WsErrorKind::Http => ErrorCounter::Http,
        WsErrorKind::HttpFormat => ErrorCounter::HttpFormat,
    }
}

/// The counter that a failure goes to.
pub open spec fn counter_of(error: WsGatorError) -> ErrorCounter {
    match error {
        WsGatorError::WsError(inner) => ws_counter(inner.kind),
        WsGatorError::MpscChannel(inner) => match inner {
            MpscChannelError::Send(_) => ErrorCounter::MpscSend,
            MpscChannelError::TrySend(_) => ErrorCounter::MpscTrySend,
            MpscChannelError::SendTimeout(_) => ErrorCounter::MpscSendTimeout,
            MpscChannelError::TryRecv(_) => ErrorCounter::MpscTryRecv,
        },
        WsGatorError::WatchChannel(inner) => match inner {
            WatchChannelError::Send(_) => ErrorCounter::WatcherSend,
            WatchChannelError::Recv(_) => ErrorCounter::WatcherRecv,
        },
        WsGatorError::JoinError(_) => ErrorCounter::JoinErr,
    }
}

/// One more than `x`, starting again from zero past the largest value.
pub open spec fn bumped(x: u32) -> u32 {
    if x == u32::MAX {
        0
    } else {
        (x + 1) as u32
    }
}

fn bump(x: &mut u32)
    ensures
        *final(x) == bumped(*old(x)),
{
    if *x == u32::MAX {
        *x = 0;
    } else {
        *x = *x + 1;
    }
}

impl ErrorLog {
    /// The value of a counter.
    pub closed spec fn counter(self, k: ErrorCounter) -> u32 {
        match k {
            ErrorCounter::ConnectionClosed => self.connection_closed,
            ErrorCounter::AlreadyClosed => self.already_closed,
            ErrorCounter::Io => self.io,
            ErrorCounter::Tls => self.tls,
            ErrorCounter::Capacity => self.capacity,
            ErrorCounter::Protocol => self.protocol,
            ErrorCounter::WriteBufferFull => self.write_buffer_full,
            ErrorCounter::Utf8 => self.utf8,
            ErrorCounter::AttackAttempt => self.attack_attempt,
            ErrorCounter::Url => self.url,
            ErrorCounter::Http => self.http,
            ErrorCounter::HttpFormat => self.http_format,
            ErrorCounter::MpscSend => self.mpsc_send,
            ErrorCounter::MpscTrySend => self.mpsc_try_send,
            ErrorCounter::MpscSendTimeout => self.mpsc_send_timeout,
            ErrorCounter::MpscTryRecv => self.mpsc_try_recv,
            ErrorCounter::WatcherSend => self.watcher_send,
            ErrorCounter::WatcherRecv => self.watcher_recv,
            ErrorCounter::JoinErr => self.join_err,
        }
    }

    /// The log after one more failure that goes to counter `k`.
    pub closed spec fn counted(self, k: ErrorCounter) -> ErrorLog {
        match k {
            ErrorCounter::ConnectionClosed => ErrorLog { connection_closed: bumped(self.connection_closed), ..self },
            ErrorCounter::AlreadyClosed => ErrorLog { already_closed: bumped(self.already_closed), ..self },
            ErrorCounter::Io => ErrorLog { io: bumped(self.io), ..self },
            ErrorCounter::Tls => ErrorLog { tls: bumped(self.tls), ..self },
            ErrorCounter::Capacity => ErrorLog { capacity: bumped(self.capacity), ..self },
            ErrorCounter::Protocol => ErrorLog { protocol: bumped(self.protocol), ..self },
            ErrorCounter::WriteBufferFull => ErrorLog { write_buffer_full: bumped(self.write_buffer_full), ..self },
            ErrorCounter::Utf8 => ErrorLog { utf8: bumped(self.utf8), ..self },
            ErrorCounter::AttackAttempt => ErrorLog { attack_attempt: bumped(self.attack_attempt), ..self },
            ErrorCounter::Url => ErrorLog { url: bumped(self.url), ..self },
            ErrorCounter::Http => ErrorLog { http: bumped(self.http), ..self },
            ErrorCounter::HttpFormat => ErrorLog { http_format: bumped(self.http_format), ..self },
            ErrorCounter::MpscSend => ErrorLog { mpsc_send: bumped(self.mpsc_send), ..self },
            ErrorCounter::MpscTrySend => ErrorLog { mpsc_try_send: bumped(self.mpsc_try_send), ..self },
            ErrorCounter::MpscSendTimeout => ErrorLog { mpsc_send_timeout: bumped(self.mpsc_send_timeout), ..self },
            ErrorCounter::MpscTryRecv => ErrorLog { mpsc_try_recv: bumped(self.mpsc_try_recv), ..self },
            ErrorCounter::WatcherSend => ErrorLog { watcher_send: bumped(self.watcher_send), ..self },
            ErrorCounter::WatcherRecv => ErrorLog { watcher_recv: bumped(self.watcher_recv), ..self },
            ErrorCounter::JoinErr => ErrorLog { join_err: bumped(self.join_err), ..self },
        }
    }

    /// An empty log: every counter at zero.
    pub fn new() -> (log: ErrorLog)
        ensures
            forall|k: ErrorCounter| #[trigger] log.counter(k) == 0,
    {
        ErrorLog {
            connection_closed: 0,
            already_closed: 0,
            io: 0,
            tls: 0,
            capacity: 0,
            protocol: 0,
            write_buffer_full: 0,
            utf8: 0,
            attack_attempt: 0,
            url: 0,
            http: 0,
            http_format: 0,
            mpsc_send: 0,
            mpsc_try_send: 0,
            mpsc_send_timeout: 0,
            mpsc_try_recv: 0,
            watcher_send: 0,
            watcher_recv: 0,
            join_err: 0,
        }
    }

    /// The value of counter `k`.
    pub fn get(&self, k: ErrorCounter) -> (value: u32)
        ensures
            value == self.counter(k),
    {
        match k {
            ErrorCounter::ConnectionClosed => self.connection_closed,
            ErrorCounter::AlreadyClosed => self.already_closed,
            ErrorCounter::Io => self.io,
            ErrorCounter::Tls => self.tls,
            ErrorCounter::Capacity => self.capacity,
            ErrorCounter::Protocol => self.protocol,
            ErrorCounter::WriteBufferFull => self.write_buffer_full,
            ErrorCounter::Utf8 => self.utf8,
            ErrorCounter::AttackAttempt => self.attack_attempt,
            ErrorCounter::Url => self.url,
            ErrorCounter::Http => self.http,
            ErrorCounter::HttpFormat => self.http_format,
            ErrorCounter::MpscSend => self.mpsc_send,
            ErrorCounter::MpscTrySend => self.mpsc_try_send,
            ErrorCounter::MpscSendTimeout => self.mpsc_send_timeout,
            ErrorCounter::MpscTryRecv => self.mpsc_try_recv,
            ErrorCounter::WatcherSend => self.watcher_send,
            ErrorCounter::WatcherRecv => self.watcher_recv,
            ErrorCounter::JoinErr => self.join_err,
        }
    }

    fn count_ws_err(&mut self, error: WsError)
        ensures
            *final(self) == old(self).counted(ws_counter(error.kind)),
    {
        match error.kind {
            WsErrorKind::ConnectionClosed => bump(&mut self.connection_closed),
            WsErrorKind::AlreadyClosed => bump(&mut self.already_closed),
            WsErrorKind::Io => bump(&mut self.io),
            WsErrorKind::Tls => bump(&mut self.tls),
            WsErrorKind::Capacity => bump(&mut self.capacity),
            WsErrorKind::Protocol => bump(&mut self.protocol),
            WsErrorKind::WriteBufferFull => bump(&mut self.write_buffer_full),
            WsErrorKind::Utf8 => bump(&mut self.utf8),
            WsErrorKind::AttackAttempt => bump(&mut self.attack_attempt),
            WsErrorKind::Url => bump(&mut self.url),
            WsErrorKind::Http => bump(&mut self.http),
            WsErrorKind::HttpFormat => bump(&mut self.http_format),
        }
    }

    fn count_mpsc_err(&mut self, error: MpscChannelError)
        ensures
            *final(self) == old(self).counted(counter_of(WsGatorError::MpscChannel(error))),
    {
        match error {
            MpscChannelError::Send(_) => bump(&mut self.mpsc_send),
            MpscChannelError::SendTimeout(_) => bump(&mut self.mpsc_send_timeout),
            MpscChannelError::TryRecv(_) => bump(&mut self.mpsc_try_recv),
            MpscChannelError::TrySend(_) => bump(&mut self.mpsc_try_send),
        }
    }

    fn count_watch_err(&mut self, error: WatchChannelError)
        ensures
            *final(self) == old(self).counted(counter_of(WsGatorError::WatchChannel(error))),
    {
        match error {
            WatchChannelError::Send(_) => bump(&mut self.watcher_send),
            WatchChannelError::Recv(_) => bump(&mut self.watcher_recv),
        }
    }

    /// Counts one failure: the counter of its kind goes up by one, and every
    /// other counter stays as it was.
    pub fn count(&mut self, error: WsGatorError)
        ensures
            *final(self) == old(self).counted(counter_of(error)),
            forall|k: ErrorCounter| #[trigger] final(self).counter(k) == if k == counter_of(error) {
                bumped(old(self).counter(k))
            } else {
                old(self).counter(k)
            },
    {
        let ghost e = error;
        match error {
            WsGatorError::WsError(inner) => self.count_ws_err(inner),
            WsGatorError::MpscChannel(inner) => self.count_mpsc_err(inner),
            WsGatorError::WatchChannel(inner) => self.count_watch_err(inner),
            WsGatorError::JoinError(_) => bump(&mut self.join_err),
        }
        proof {
            lemma_counted_changes_one_counter(*old(self), counter_of(e));
        }
    }
}

proof fn lemma_counted_counter(log: ErrorLog, c: ErrorCounter, k: ErrorCounter)
    ensures
        log.counted(c).counter(k) == if k == c { bumped(log.counter(k)) } else { log.counter(k) },
{
    match c {
        ErrorCounter::ConnectionClosed => {},
        ErrorCounter::AlreadyClosed => {},
        ErrorCounter::Io => {},
        ErrorCounter::Tls => {},
        ErrorCounter::Capacity => {},
        ErrorCounter::Protocol => {},
        ErrorCounter::WriteBufferFull => {},
        ErrorCounter::Utf8 => {},
        ErrorCounter::AttackAttempt => {},
        ErrorCounter::Url => {},
        ErrorCounter::Http => {},
        ErrorCounter::HttpFormat => {},
        ErrorCounter::MpscSend => {},
        ErrorCounter::MpscTrySend => {},
        ErrorCounter::MpscSendTimeout => {},
        ErrorCounter::MpscTryRecv => {},
        ErrorCounter::WatcherSend => {},
        ErrorCounter::WatcherRecv => {},
        ErrorCounter::JoinErr => {},
    }
}

proof fn lemma_counted_changes_one_counter(log: ErrorLog, c: ErrorCounter)
    ensures
        forall|k: ErrorCounter| #[trigger] log.counted(c).counter(k) == if k == c {
            bumped(log.counter(k))
        } else {
            log.counter(k)
        },
{
    assert forall|k: ErrorCounter| #[trigger] log.counted(c).counter(k) == if k == c {
        bumped(log.counter(k))
    } else {
        log.counter(k)
    } by {
        lemma_counted_counter(log, c, k);
    }
}

/// Counting goes to exactly one counter: after a failure of kind `c`, counter
/// `c` is one higher (from zero again past the largest value) and every other
/// counter is unchanged.
pub proof fn law_count_touches_one_counter(log: ErrorLog, c: ErrorCounter, k: ErrorCounter)
    ensures
        log.counted(c).counter(k) == if k == c { bumped(log.counter(k)) } else { log.counter(k) },
{
    lemma_counted_changes_one_counter(log, c);
}

/// The order in which failures are counted does not matter.
pub proof fn law_counting_order_is_irrelevant(log: ErrorLog, a: ErrorCounter, b: ErrorCounter)
    ensures
        log.counted(a).counted(b) == log.counted(b).counted(a),
{
    lemma_counted_changes_one_counter(log, a);
    lemma_counted_changes_one_counter(log, b);
    lemma_counted_changes_one_counter(log.counted(a), b);
    lemma_counted_changes_one_counter(log.counted(b), a);
    lemma_same_counters_same_log(log.counted(a).counted(b), log.counted(b).counted(a));
}

proof fn lemma_same_counters_same_log(l1: ErrorLog, l2: ErrorLog)
    requires
        forall|k: ErrorCounter| #[trigger] l1.counter(k) == l2.counter(k),
    ensures
        l1 == l2,
{
    assert(l1.counter(ErrorCounter::ConnectionClosed) == l2.counter(ErrorCounter::ConnectionClosed));
    assert(l1.counter(ErrorCounter::AlreadyClosed) == l2.counter(ErrorCounter::AlreadyClosed));
    assert(l1.counter(ErrorCounter::Io) == l2.counter(ErrorCounter::Io));
    assert(l1.counter(ErrorCounter::Tls) == l2.counter(ErrorCounter::Tls));
    assert(l1.counter(ErrorCounter::Capacity) == l2.counter(ErrorCounter::Capacity));
    assert(l1.counter(ErrorCounter::Protocol) == l2.counter(ErrorCounter::Protocol));
    assert(l1.counter(ErrorCounter::WriteBufferFull) == l2.counter(ErrorCounter::WriteBufferFull));
    assert(l1.counter(ErrorCounter::Utf8) == l2.counter(ErrorCounter::Utf8));
    assert(l1.counter(ErrorCounter::AttackAttempt) == l2.counter(ErrorCounter::AttackAttempt));
    assert(l1.counter(ErrorCounter::Url) == l2.counter(ErrorCounter::Url));
    assert(l1.counter(ErrorCounter::Http) == l2.counter(ErrorCounter::Http));
    assert(l1.counter(ErrorCounter::HttpFormat) == l2.counter(ErrorCounter::HttpFormat));
    assert(l1.counter(ErrorCounter::MpscSend) == l2.counter(ErrorCounter::MpscSend));
    assert(l1.counter(ErrorCounter::MpscTrySend) == l2.counter(ErrorCounter::MpscTrySend));
    assert(l1.counter(ErrorCounter::MpscSendTimeout) == l2.counter(ErrorCounter::MpscSendTimeout));
    assert(l1.counter(ErrorCounter::MpscTryRecv) == l2.counter(ErrorCounter::MpscTryRecv));
    assert(l1.counter(ErrorCounter::WatcherSend) == l2.counter(ErrorCounter::WatcherSend));
    assert(l1.counter(ErrorCounter::WatcherRecv) == l2.counter(ErrorCounter::WatcherRecv));
    assert(l1.counter(ErrorCounter::JoinErr) == l2.counter(ErrorCounter::JoinErr));
}

/// The log after counting `errors`, one after the other.
pub open spec fn counted_all(log: ErrorLog, errors: Seq<WsGatorError>) -> ErrorLog
    decreases errors.len(),
{
    if errors.len() == 0 {
        log
    } else {
        counted_all(log, errors.drop_last()).counted(counter_of(errors.last()))
    }
}

/// How many of `errors` go to counter `k`.
pub open spec fn failures_of(errors: Seq<WsGatorError>, k: ErrorCounter) -> nat
    decreases errors.len(),
{
    if errors.len() == 0 {
        0
    } else {
        failures_of(errors.drop_last(), k) + if counter_of(errors.last()) == k {
            1nat
        } else {
            0nat
        }
    }
}

/// Counting a sequence of failures into an empty log leaves in each counter
/// the number of failures of its kind (from zero again past the largest
/// value): no failure is lost and none is counted twice.
pub proof fn law_count_sequence(log: ErrorLog, errors: Seq<WsGatorError>, k: ErrorCounter)
    requires
        forall|c: ErrorCounter| #[trigger] log.counter(c) == 0,
    ensures
        counted_all(log, errors).counter(k) == failures_of(errors, k) % 0x1_0000_0000,
    decreases errors.len(),
{
    if errors.len() > 0 {
        let prev = errors.drop_last();
        law_count_sequence(log, prev, k);
        lemma_counted_changes_one_counter(counted_all(log, prev), counter_of(errors.last()));
        let before = failures_of(prev, k);
        if counter_of(errors.last()) == k {
            assert((before % 0x1_0000_0000 + 1) % 0x1_0000_0000 == (before + 1) % 0x1_0000_0000)
                by (nonlinear_arith);
        }
    } else {
        assert(log.counter(k) == 0);
    }
}

/// Two sequences of failures with as many failures of each kind leave the
/// same log, whatever their order.
pub proof fn law_count_sequence_order_is_irrelevant(
    log: ErrorLog,
    first: Seq<WsGatorError>,
    second: Seq<WsGatorError>,
)
    requires
        forall|c: ErrorCounter| #[trigger] log.counter(c) == 0,
        forall|c: ErrorCounter| #[trigger] failures_of(first, c) == failures_of(second, c),
    ensures
        counted_all(log, first) == counted_all(log, second),
{
    assert forall|c: ErrorCounter|
        #[trigger] counted_all(log, first).counter(c) == counted_all(log, second).counter(c) by {
        law_count_sequence(log, first, c);
        law_count_sequence(log, second, c);
    }
    lemma_same_counters_same_log(counted_all(log, first), counted_all(log, second));
}

/// The sum of all the counters of a log.
pub open spec fn total_count(log: ErrorLog) -> int {
    log.counter(ErrorCounter::ConnectionClosed)
        + log.counter(ErrorCounter::AlreadyClosed)
        + log.counter(ErrorCounter::Io)
        + log.counter(ErrorCounter::Tls)
        + log.counter(ErrorCounter::Capacity)
        + log.counter(ErrorCounter::Protocol)
        + log.counter(ErrorCounter::WriteBufferFull)
        + log.counter(ErrorCounter::Utf8)
        + log.counter(ErrorCounter::AttackAttempt)
        + log.counter(ErrorCounter::Url)
        + log.counter(ErrorCounter::Http)
        + log.counter(ErrorCounter::HttpFormat)
        + log.counter(ErrorCounter::MpscSend)
        + log.counter(ErrorCounter::MpscTrySend)
        + log.counter(ErrorCounter::MpscSendTimeout)
        + log.counter(ErrorCounter::MpscTryRecv)
        + log.counter(ErrorCounter::WatcherSend)
        + log.counter(ErrorCounter::WatcherRecv)
        + log.counter(ErrorCounter::JoinErr)
}

/// The failures of `errors`, counted kind by kind and added up.
spec fn failures_by_kind(errors: Seq<WsGatorError>) -> nat {
    failures_of(errors, ErrorCounter::ConnectionClosed)
        + failures_of(errors, ErrorCounter::AlreadyClosed)
        + failures_of(errors, ErrorCounter::Io)
        + failures_of(errors, ErrorCounter::Tls)
        + failures_of(errors, ErrorCounter::Capacity)
        + failures_of(errors, ErrorCounter::Protocol)
        + failures_of(errors, ErrorCounter::WriteBufferFull)
        + failures_of(errors, ErrorCounter::Utf8)
        + failures_of(errors, ErrorCounter::AttackAttempt)
        + failures_of(errors, ErrorCounter::Url)
        + failures_of(errors, ErrorCounter::Http)
        + failures_of(errors, ErrorCounter::HttpFormat)
        + failures_of(errors, ErrorCounter::MpscSend)
        + failures_of(errors, ErrorCounter::MpscTrySend)
        + failures_of(errors, ErrorCounter::MpscSendTimeout)
        + failures_of(errors, ErrorCounter::MpscTryRecv)
        + failures_of(errors, ErrorCounter::WatcherSend)
        + failures_of(errors, ErrorCounter::WatcherRecv)
        + failures_of(errors, ErrorCounter::JoinErr)
}

proof fn lemma_failures_bounded(errors: Seq<WsGatorError>, k: ErrorCounter)
    ensures
        failures_of(errors, k) <= errors.len(),
    decreases errors.len(),
{
    if errors.len() > 0 {
        lemma_failures_bounded(errors.drop_last(), k);
    }
}

proof fn lemma_failures_by_kind(errors: Seq<WsGatorError>)
    ensures
        failures_by_kind(errors) == errors.len(),
    decreases errors.len(),
{
    if errors.len() > 0 {
        lemma_failures_by_kind(errors.drop_last());
        match counter_of(errors.last()) {
        ErrorCounter::ConnectionClosed => {},
        ErrorCounter::AlreadyClosed => {},
        ErrorCounter::Io => {},
        ErrorCounter::Tls => {},
        ErrorCounter::Capacity => {},
        ErrorCounter::Protocol => {},
        ErrorCounter::WriteBufferFull => {},
        ErrorCounter::Utf8 => {},
        ErrorCounter::AttackAttempt => {},
        ErrorCounter::Url => {},
        ErrorCounter::Http => {},
        ErrorCounter::HttpFormat => {},
        ErrorCounter::MpscSend => {},
        ErrorCounter::MpscTrySend => {},
        ErrorCounter::MpscSendTimeout => {},
        ErrorCounter::MpscTryRecv => {},
        ErrorCounter::WatcherSend => {},
        ErrorCounter::WatcherRecv => {},
        ErrorCounter::JoinErr => {},
        }
    }
}

/// Counting fewer than 2^32 failures into an empty log leaves counters that
/// add up to the number of failures: each failure is counted once, in one
/// counter.
pub proof fn law_count_sequence_total(log: ErrorLog, errors: Seq<WsGatorError>)
    requires
        forall|c: ErrorCounter| #[trigger] log.counter(c) == 0,
        errors.len() < 0x1_0000_0000,
    ensures
        total_count(counted_all(log, errors)) == errors.len(),
{
    assert forall|k: ErrorCounter|
        #[trigger] counted_all(log, errors).counter(k) == failures_of(errors, k) by {
        law_count_sequence(log, errors, k);
        lemma_failures_bounded(errors, k);
    }
    lemma_failures_by_kind(errors);
}

} // verus!
