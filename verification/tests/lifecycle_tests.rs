use matrix_goose::cancel::CancelSignal;
use matrix_goose::lifecycle::{Lifecycle, StopStep, UserStatus, STOP_WAIT_NANOS};
use matrix_goose::poll::PollLoop;

#[test]
fn successful_login_starts_the_poll_loop() {
    let mut user = Lifecycle::new();
    assert_eq!(user.status(), UserStatus::Created);
    assert!(!user.is_scheduled());
    assert!(user.on_start(true));
    assert_eq!(user.status(), UserStatus::Active);
    assert!(user.is_scheduled());
}

#[test]
fn failed_login_starts_nothing() {
    let mut user = Lifecycle::new();
    assert!(!user.on_start(false));
    assert_eq!(user.status(), UserStatus::Failed);
    assert!(!user.is_scheduled());
    assert!(!user.on_start(true));
    assert_eq!(user.status(), UserStatus::Failed);
}

#[test]
fn second_login_answer_changes_nothing() {
    let mut user = Lifecycle::new();
    assert!(user.on_start(true));
    assert!(!user.on_start(true));
    assert!(!user.on_start(false));
    assert_eq!(user.status(), UserStatus::Active);
}

#[test]
fn stop_waits_until_the_poll_loop_has_exited() {
    let mut signal = CancelSignal::new();
    let mut user = Lifecycle::new();
    user.on_start(true);
    assert_eq!(STOP_WAIT_NANOS, 1_000_000_000);
    assert_eq!(user.on_stop(&mut signal, false), StopStep::Wait { nanos: STOP_WAIT_NANOS });
    assert!(signal.is_cancelled());
    assert_eq!(user.status(), UserStatus::Stopping);
    assert!(!user.is_scheduled());
    for _ in 0..5 {
        assert_eq!(user.on_stop(&mut signal, false), StopStep::Wait { nanos: STOP_WAIT_NANOS });
        assert_eq!(user.status(), UserStatus::Stopping);
    }
    assert_eq!(user.on_stop(&mut signal, true), StopStep::Return);
    assert_eq!(user.status(), UserStatus::Stopped);
    assert_eq!(user.on_stop(&mut signal, false), StopStep::Return);
    assert_eq!(user.status(), UserStatus::Stopped);
}

#[test]
fn stop_returns_at_once_when_the_loop_is_gone() {
    let mut signal = CancelSignal::new();
    let mut user = Lifecycle::new();
    user.on_start(true);
    assert_eq!(user.on_stop(&mut signal, true), StopStep::Return);
    assert!(signal.is_cancelled());
    assert_eq!(user.status(), UserStatus::Stopped);
}

#[test]
fn failed_user_raises_the_signal_and_does_not_wait() {
    let mut signal = CancelSignal::new();
    let mut user = Lifecycle::new();
    user.on_start(false);
    assert_eq!(user.on_stop(&mut signal, false), StopStep::Return);
    assert!(signal.is_cancelled());
    assert_eq!(user.status(), UserStatus::Stopped);
}

#[test]
fn user_that_never_started_raises_the_signal_too() {
    let mut signal = CancelSignal::new();
    let mut never_started = Lifecycle::new();
    assert_eq!(never_started.on_stop(&mut signal, false), StopStep::Return);
    assert!(signal.is_cancelled());
    assert_eq!(never_started.status(), UserStatus::Stopped);
}

#[test]
fn first_user_to_stop_cancels_the_run_whoever_it_is() {
    let mut signal = CancelSignal::new();
    let mut failed = Lifecycle::new();
    let mut active = Lifecycle::new();
    failed.on_start(false);
    active.on_start(true);
    assert!(!signal.is_cancelled());
    assert_eq!(failed.on_stop(&mut signal, true), StopStep::Return);
    assert!(signal.is_cancelled());
    assert_eq!(active.on_stop(&mut signal, false), StopStep::Wait { nanos: STOP_WAIT_NANOS });
    assert!(signal.is_cancelled());
    assert_eq!(active.on_stop(&mut signal, true), StopStep::Return);
}

#[test]
fn signal_is_raised_once_for_the_whole_run() {
    let mut signal = CancelSignal::new();
    let mut users = vec![Lifecycle::new(), Lifecycle::new(), Lifecycle::new()];
    for user in users.iter_mut() {
        user.on_start(true);
    }
    let mut raised = 0;
    for user in users.iter_mut() {
        let before = signal.is_cancelled();
        user.on_stop(&mut signal, false);
        if !before && signal.is_cancelled() {
            raised += 1;
        }
    }
    assert_eq!(raised, 1);
    assert!(signal.is_cancelled());
}

#[test]
fn stop_outlasts_a_sync_call_that_is_under_way() {
    let mut signal = CancelSignal::new();
    let mut user = Lifecycle::new();
    let mut poll = PollLoop::new();
    assert!(user.on_start(true));
    assert!(poll.start());

    // The poll loop is in the middle of a call when the user is stopped.
    assert_eq!(
        user.on_stop(&mut signal, poll.is_stopped()),
        StopStep::Wait { nanos: STOP_WAIT_NANOS }
    );
    assert_eq!(
        user.on_stop(&mut signal, poll.is_stopped()),
        StopStep::Wait { nanos: STOP_WAIT_NANOS }
    );

    // The call fails; the loop sees the signal at its boundary and exits.
    poll.record_sync(None);
    assert_eq!(poll.boundary(signal.is_cancelled(), 7), None);
    assert_eq!(
        user.on_stop(&mut signal, poll.is_stopped()),
        StopStep::Wait { nanos: STOP_WAIT_NANOS }
    );
    poll.exited();
    assert_eq!(user.on_stop(&mut signal, poll.is_stopped()), StopStep::Return);
    assert_eq!(user.status(), UserStatus::Stopped);
}
