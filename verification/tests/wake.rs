use deploy_dispatcher::wake::{Wake, WakeSignal, IDLE_TIMEOUT_SECS};

#[test]
fn a_new_signal_is_not_raised() {
    let mut signal = WakeSignal::new();
    assert!(!signal.is_raised());
    assert!(!signal.take());
}

#[test]
fn notify_raises_and_take_uses_up() {
    let mut signal = WakeSignal::new();
    signal.notify();
    assert!(signal.is_raised());
    assert!(signal.take());
    assert!(!signal.is_raised());
    assert!(!signal.take());
}

#[test]
fn many_signals_wake_once() {
    let mut signal = WakeSignal::new();
    signal.notify();
    signal.notify();
    signal.notify();
    assert_eq!(signal.poll(0), Some(Wake::Signalled));
    assert_eq!(signal.poll(0), None);
}

#[test]
fn a_signal_before_the_wait_is_not_lost() {
    let mut signal = WakeSignal::new();
    signal.notify();
    assert_eq!(signal.poll(0), Some(Wake::Signalled));
}

#[test]
fn a_wait_without_signal_ends_at_the_timeout() {
    let mut signal = WakeSignal::new();
    assert_eq!(signal.poll(0), None);
    assert_eq!(signal.poll(IDLE_TIMEOUT_SECS - 1), None);
    assert_eq!(signal.poll(IDLE_TIMEOUT_SECS), Some(Wake::TimedOut));
    assert_eq!(signal.poll(u64::MAX), Some(Wake::TimedOut));
}

#[test]
fn a_signal_wins_over_the_timeout() {
    let mut signal = WakeSignal::new();
    signal.notify();
    assert_eq!(signal.poll(IDLE_TIMEOUT_SECS + 5), Some(Wake::Signalled));
    assert_eq!(signal.poll(IDLE_TIMEOUT_SECS + 5), Some(Wake::TimedOut));
}

#[test]
fn the_idle_timeout_is_a_minute() {
    assert_eq!(IDLE_TIMEOUT_SECS, 60);
}
