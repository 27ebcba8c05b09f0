use matrix_goose::delay::NANOS_PER_SEC;
use matrix_goose::poll::{PollLoop, PollPhase, MIN_POLL_INTERVAL_NANOS};

fn token(poll: &PollLoop) -> Option<String> {
    poll.token().map(|t| t.to_string())
}

#[test]
fn new_loop_is_idle_without_token() {
    let poll = PollLoop::new();
    assert_eq!(poll.phase(), PollPhase::Idle);
    assert_eq!(token(&poll), None);
    assert!(!poll.is_stopped());
}

#[test]
fn start_moves_idle_to_syncing_once() {
    let mut poll = PollLoop::new();
    assert!(poll.start());
    assert_eq!(poll.phase(), PollPhase::Syncing);
    assert_eq!(token(&poll), None);
    assert!(!poll.start());
    assert_eq!(poll.phase(), PollPhase::Syncing);
}

#[test]
fn tokens_chain_from_call_to_call() {
    let mut poll = PollLoop::new();
    poll.start();
    let returned = ["s1", "s2", "s3", "s4", "s5"];
    let mut passed: Vec<Option<String>> = Vec::new();
    for (k, next_batch) in returned.iter().enumerate() {
        passed.push(token(&poll));
        poll.record_sync(Some(next_batch.to_string()));
        assert_eq!(poll.boundary(false, (k as u64 + 1) * 30 * NANOS_PER_SEC), Some(0));
    }
    assert_eq!(passed[0], None);
    for k in 0..returned.len() - 1 {
        assert_eq!(passed[k + 1], Some(returned[k].to_string()));
    }
    assert_eq!(token(&poll), Some("s5".to_string()));
}

#[test]
fn failed_sync_keeps_the_token_and_the_loop() {
    let mut poll = PollLoop::new();
    poll.start();
    poll.record_sync(Some("s1".to_string()));
    poll.record_sync(None);
    assert_eq!(token(&poll), Some("s1".to_string()));
    assert_eq!(poll.phase(), PollPhase::Syncing);
    assert!(poll.boundary(false, 5).is_some());
    poll.record_sync(None);
    poll.record_sync(Some("s2".to_string()));
    poll.record_sync(None);
    assert_eq!(token(&poll), Some("s2".to_string()));
    assert_eq!(poll.phase(), PollPhase::Syncing);
}

#[test]
fn polls_in_quick_succession_are_kept_a_second_apart() {
    let mut poll = PollLoop::new();
    poll.start();
    poll.record_sync(None);
    assert_eq!(poll.boundary(false, 100), Some(0));
    poll.record_sync(None);
    assert_eq!(poll.boundary(false, 200), Some(MIN_POLL_INTERVAL_NANOS));
    poll.record_sync(None);
    assert_eq!(poll.boundary(false, 200 + NANOS_PER_SEC), Some(NANOS_PER_SEC));
    poll.record_sync(None);
    assert_eq!(poll.boundary(false, 201 + 2 * NANOS_PER_SEC), Some(0));
    poll.record_sync(None);
    assert_eq!(poll.boundary(false, 50), Some(NANOS_PER_SEC));
}

#[test]
fn pause_near_the_end_of_time() {
    let mut poll = PollLoop::new();
    poll.start();
    assert_eq!(poll.boundary(false, u64::MAX - 5), Some(0));
    assert_eq!(poll.boundary(false, u64::MAX), Some(NANOS_PER_SEC));
}

#[test]
fn raised_signal_stops_the_loop_at_the_boundary() {
    let mut poll = PollLoop::new();
    poll.start();
    poll.record_sync(Some("s1".to_string()));
    assert_eq!(poll.boundary(true, 10), None);
    assert_eq!(poll.phase(), PollPhase::Stopping);
    assert!(!poll.is_stopped());
    assert_eq!(token(&poll), Some("s1".to_string()));
    poll.exited();
    assert_eq!(poll.phase(), PollPhase::Stopped);
    assert!(poll.is_stopped());
}

#[test]
fn loop_stops_after_a_failed_sync_too() {
    let mut poll = PollLoop::new();
    poll.start();
    poll.record_sync(None);
    assert_eq!(poll.boundary(true, 10), None);
    poll.exited();
    assert!(poll.is_stopped());
}

#[test]
fn only_a_stopping_loop_exits() {
    let mut poll = PollLoop::new();
    poll.exited();
    assert_eq!(poll.phase(), PollPhase::Idle);
    poll.start();
    poll.exited();
    assert_eq!(poll.phase(), PollPhase::Syncing);
}

#[test]
fn a_loop_that_is_not_polling_takes_nothing() {
    let mut poll = PollLoop::new();
    poll.record_sync(Some("early".to_string()));
    assert_eq!(token(&poll), None);
    assert_eq!(poll.boundary(false, 1), None);
    assert_eq!(poll.phase(), PollPhase::Idle);

    poll.start();
    poll.record_sync(Some("s1".to_string()));
    poll.boundary(true, 2);
    poll.record_sync(Some("late".to_string()));
    assert_eq!(token(&poll), Some("s1".to_string()));
    assert_eq!(poll.boundary(false, 3), None);
    assert_eq!(poll.phase(), PollPhase::Stopping);
    poll.exited();
    assert!(!poll.start());
    assert_eq!(poll.boundary(false, 4), None);
    assert!(poll.is_stopped());
}
