use pipe2serial::config::DeviceConfig;
use pipe2serial::retry::{connect_step, ConnectAttempt, ConnectStep, RetryPolicy};

#[test]
fn connected_ends_the_loop() {
    let p = RetryPolicy::channel_connect();
    assert_eq!(connect_step(p, 0, ConnectAttempt::Connected), ConnectStep::Done);
    assert_eq!(connect_step(p, 19999, ConnectAttempt::Connected), ConnectStep::Done);
}

#[test]
fn hard_failure_is_never_retried() {
    let p = RetryPolicy::channel_connect();
    assert_eq!(connect_step(p, 0, ConnectAttempt::Refused(5)), ConnectStep::GiveUpRefused(5));
}

#[test]
fn busy_under_the_deadline_waits_and_retries() {
    let p = RetryPolicy::channel_connect();
    assert_eq!(connect_step(p, 0, ConnectAttempt::Busy), ConnectStep::WaitThenRetry(20000));
    assert_eq!(connect_step(p, 19999, ConnectAttempt::Busy), ConnectStep::WaitThenRetry(1));
}

#[test]
fn busy_at_the_deadline_fails_with_timeout() {
    let p = RetryPolicy::channel_connect();
    assert_eq!(connect_step(p, 20000, ConnectAttempt::Busy), ConnectStep::GiveUpTimedOut);
    assert_eq!(connect_step(p, u64::MAX, ConnectAttempt::Busy), ConnectStep::GiveUpTimedOut);
}

#[test]
fn a_busy_endpoint_is_retried_until_exactly_the_deadline() {
    // Injected clock: every prescribed wait elapses exactly. The loop must
    // retry while time is left, never run past the deadline, and then fail
    // with the timeout-class error.
    let policy = RetryPolicy { max_wait_ms: 100, per_attempt_wait_ms: 30 };
    let mut elapsed: u64 = 0;
    let mut waits: Vec<u64> = Vec::new();
    let outcome = loop {
        match connect_step(policy, elapsed, ConnectAttempt::Busy) {
            ConnectStep::WaitThenRetry(w) => {
                waits.push(w);
                elapsed += w;
            }
            other => break other,
        }
    };
    assert_eq!(outcome, ConnectStep::GiveUpTimedOut);
    assert_eq!(waits, vec![30, 30, 30, 10]);
    assert_eq!(elapsed, 100);
}

#[test]
fn fixed_device_configuration_never_waits_forever() {
    let c = DeviceConfig::fixed();
    assert_eq!(c.baud_rate, 115200);
    assert_eq!(c.data_bits, 8);
    assert_eq!(c.stop_bits, 1);
    assert!(!c.parity_enabled);
    // Zero would mean "wait forever" on the target OS; the interval is the
    // shortest legal wait instead.
    assert_eq!(c.read_interval_ms, 1);
}
