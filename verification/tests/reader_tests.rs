use serial_tcp_bridge::reader::{
    OpenDecision, ReadDecision, ReadEvent, ReaderSession, IDLE_INTERVAL_MS,
};
use serial_tcp_bridge::supervisor::{
    after_pump, PumpOutcome, SupervisorAction, BACKOFF_INTERVAL_MS,
};

#[test]
fn open_failure_is_retried_when_polling() {
    assert_eq!(ReaderSession::on_open_result(true, false), OpenDecision::RetryLater);
}

#[test]
fn open_failure_is_fatal_without_polling() {
    assert_eq!(ReaderSession::on_open_result(false, false), OpenDecision::Fatal);
}

#[test]
fn successful_open_enters_the_read_loop() {
    assert_eq!(ReaderSession::on_open_result(true, true), OpenDecision::Pump);
    assert_eq!(ReaderSession::on_open_result(false, true), OpenDecision::Pump);
}

#[test]
fn bytes_read_are_published_and_counted() {
    let mut session = ReaderSession::new();
    assert!(!session.has_read);
    assert_eq!(session.on_read(true, ReadEvent::Bytes(16)), ReadDecision::PublishChunk);
    assert!(session.has_read);
}

#[test]
fn a_read_of_zero_bytes_idles_briefly() {
    let mut session = ReaderSession::new();
    assert_eq!(
        session.on_read(true, ReadEvent::Bytes(0)),
        ReadDecision::IdleThenRead(IDLE_INTERVAL_MS)
    );
    assert_eq!(IDLE_INTERVAL_MS, 500);
    assert!(!session.has_read);
}

#[test]
fn read_failure_while_polling_closes_and_retries() {
    let mut session = ReaderSession::new();
    assert_eq!(session.on_read(true, ReadEvent::Bytes(4)), ReadDecision::PublishChunk);
    // The retry outcome reports whether the session transferred anything.
    assert_eq!(session.on_read(true, ReadEvent::Failed), ReadDecision::CloseThenRetry(true));

    let mut idle_session = ReaderSession::new();
    assert_eq!(
        idle_session.on_read(true, ReadEvent::Failed),
        ReadDecision::CloseThenRetry(false)
    );
}

#[test]
fn read_failure_without_polling_is_fatal() {
    let mut session = ReaderSession::new();
    assert_eq!(session.on_read(false, ReadEvent::Failed), ReadDecision::FatalError);
}

#[test]
fn polling_retries_forever_at_the_backoff_interval() {
    // The device never becomes available: every attempt fails to open, and
    // every outcome schedules another attempt — never termination.
    for _attempt in 0..100 {
        assert_eq!(ReaderSession::on_open_result(true, false), OpenDecision::RetryLater);
        let action = after_pump(true, PumpOutcome::RetryLater(false));
        assert_eq!(action, SupervisorAction::RetryAfter(BACKOFF_INTERVAL_MS));
        assert_ne!(action, SupervisorAction::Terminate);
    }
    assert_eq!(BACKOFF_INTERVAL_MS, 3000);
}

#[test]
fn without_polling_a_single_failure_terminates() {
    assert_eq!(after_pump(false, PumpOutcome::FatalError), SupervisorAction::Terminate);
    assert_eq!(after_pump(false, PumpOutcome::RetryLater(true)), SupervisorAction::Terminate);
}

#[test]
fn a_fatal_outcome_terminates_even_when_polling() {
    assert_eq!(after_pump(true, PumpOutcome::FatalError), SupervisorAction::Terminate);
}
