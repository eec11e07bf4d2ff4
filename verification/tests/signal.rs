use pollster::MultipleWaiters;
use pollster::Signal;
use pollster::SignalState;
use std::sync::Arc;
use std::task::Wake;
use std::task::Waker;

#[test]
fn notify_banks_a_notification_in_an_empty_signal() {
    assert_eq!(SignalState::Empty.notify(), (SignalState::Notified, false));
}

#[test]
fn notify_on_a_banked_notification_changes_nothing() {
    assert_eq!(SignalState::Notified.notify(), (SignalState::Notified, false));
}

#[test]
fn notify_releases_the_waiter_and_leaves_the_signal_empty() {
    assert_eq!(SignalState::Waiting.notify(), (SignalState::Empty, true));
}

#[test]
fn wait_consumes_a_banked_notification_without_blocking() {
    assert_eq!(SignalState::Notified.wait(), Ok((SignalState::Empty, false)));
}

#[test]
fn wait_on_an_empty_signal_records_the_waiter_and_blocks() {
    assert_eq!(SignalState::Empty.wait(), Ok((SignalState::Waiting, true)));
}

#[test]
fn wait_is_refused_while_another_thread_waits() {
    assert_eq!(SignalState::Waiting.wait(), Err(MultipleWaiters));
}

#[test]
fn second_wait_after_a_blocking_wait_is_refused() {
    let (blocked, blocks) = SignalState::Empty.wait().unwrap();
    assert!(blocks);
    assert_eq!(blocked.wait(), Err(MultipleWaiters));
}

#[test]
fn is_waiting_tells_the_three_modes_apart() {
    assert!(SignalState::Waiting.is_waiting());
    assert!(!SignalState::Empty.is_waiting());
    assert!(!SignalState::Notified.is_waiting());
}

#[test]
fn notify_before_wait_lets_the_wait_return_at_once() {
    let (banked, release) = SignalState::Empty.notify();
    assert!(!release);
    assert_eq!(banked.wait(), Ok((SignalState::Empty, false)));
}

#[test]
fn two_notifications_count_as_one() {
    let (once, _) = SignalState::Empty.notify();
    let (twice, _) = once.notify();
    assert_eq!(twice, SignalState::Notified);
    let (after_first, first_blocks) = twice.wait().unwrap();
    assert!(!first_blocks);
    let (after_second, second_blocks) = after_first.wait().unwrap();
    assert!(second_blocks);
    assert_eq!(after_second, SignalState::Waiting);
}

#[test]
fn notification_during_a_wait_releases_it() {
    let (blocked, _) = SignalState::Empty.wait().unwrap();
    assert_eq!(blocked.notify(), (SignalState::Empty, true));
}

#[test]
fn signal_notify_releases_nobody_while_nobody_waits() {
    let signal = Signal::new();
    assert!(!signal.notify().0);
    assert!(!signal.notify().0);
    assert_eq!(signal.wait().0, Ok(()));
    assert!(!signal.notify().0);
}

#[test]
fn signal_wait_returns_after_an_earlier_notify() {
    let signal = Signal::new();
    signal.notify();
    assert_eq!(signal.wait().0, Ok(()));
}

#[test]
fn signal_keeps_one_notification_for_each_wait() {
    let signal = Signal::new();
    for _ in 0..3 {
        signal.notify();
        assert_eq!(signal.wait().0, Ok(()));
    }
}

#[test]
fn signal_collapses_repeated_notifications() {
    let signal = Signal::new();
    signal.notify();
    signal.notify();
    assert_eq!(signal.wait().0, Ok(()));
    signal.notify();
    assert_eq!(signal.wait().0, Ok(()));
}

#[test]
fn waking_a_shared_signal_notifies_it() {
    let signal = Arc::new(Signal::new());
    Arc::clone(&signal).wake();
    assert_eq!(signal.wait().0, Ok(()));
}

#[test]
fn waker_made_from_a_signal_notifies_it() {
    let signal = Arc::new(Signal::new());
    let waker = Waker::from(Arc::clone(&signal));
    waker.wake_by_ref();
    assert_eq!(signal.wait().0, Ok(()));
    waker.clone().wake();
    assert_eq!(signal.wait().0, Ok(()));
}

#[test]
fn multiple_waiters_has_a_message() {
    assert_eq!(MultipleWaiters.message(), "Multiple threads waiting on the same signal");
}
