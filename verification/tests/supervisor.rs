use niri_switch::supervisor::{
    Link, Phase, Supervisor, SupervisorAction, SupervisorEvent, DEFAULT_BACKOFF_MILLIS,
};

#[test]
fn new_supervisor_is_idle_and_disconnected() {
    let s = Supervisor::new(500);
    assert_eq!(s.phase, Phase::Idle);
    assert_eq!(s.attempts, 0);
    assert_eq!(s.backoff_millis, 500);
    assert_eq!(s.link(), Link::Disconnected);
}

#[test]
fn default_backoff_is_two_seconds() {
    assert_eq!(DEFAULT_BACKOFF_MILLIS, 2000);
    assert_eq!(Supervisor::default(), Supervisor::new(2000));
}

#[test]
fn start_asks_for_the_first_attempt() {
    let mut s = Supervisor::new(500);
    assert_eq!(s.step(SupervisorEvent::Start), SupervisorAction::Attempt);
    assert_eq!(s.phase, Phase::Connecting);
    assert_eq!(s.attempts, 1);
    assert_eq!(s.link(), Link::Disconnected);
}

#[test]
fn acknowledgment_connects() {
    let mut s = Supervisor::new(500);
    s.step(SupervisorEvent::Start);
    assert_eq!(s.step(SupervisorEvent::Acknowledged), SupervisorAction::Stay);
    assert_eq!(s.phase, Phase::Connected);
    assert_eq!(s.link(), Link::Connected);
    assert_eq!(s.attempts, 1);
}

#[test]
fn a_stream_that_ends_is_opened_again_after_the_wait() {
    let mut s = Supervisor::new(750);
    s.step(SupervisorEvent::Start);
    s.step(SupervisorEvent::Acknowledged);
    assert_eq!(s.step(SupervisorEvent::SessionEnded), SupervisorAction::Wait { millis: 750 });
    assert_eq!(s.link(), Link::Disconnected);
    assert_eq!(s.phase, Phase::Backoff);
    assert_eq!(s.step(SupervisorEvent::BackoffElapsed), SupervisorAction::Attempt);
    assert_eq!(s.phase, Phase::Connecting);
    assert_eq!(s.attempts, 2);
}

fn fails_then_succeeds(failures: u64, backoff: u64) -> (Supervisor, Vec<SupervisorAction>) {
    let mut s = Supervisor::new(backoff);
    let mut asked = vec![s.step(SupervisorEvent::Start)];
    for _ in 0..failures {
        asked.push(s.step(SupervisorEvent::SessionEnded));
        asked.push(s.step(SupervisorEvent::BackoffElapsed));
    }
    asked.push(s.step(SupervisorEvent::Acknowledged));
    (s, asked)
}

#[test]
fn three_failures_then_success_is_four_attempts() {
    let (s, asked) = fails_then_succeeds(3, 2000);
    assert_eq!(s.attempts, 4);
    assert_eq!(s.link(), Link::Connected);
    assert_eq!(
        asked,
        vec![
            SupervisorAction::Attempt,
            SupervisorAction::Wait { millis: 2000 },
            SupervisorAction::Attempt,
            SupervisorAction::Wait { millis: 2000 },
            SupervisorAction::Attempt,
            SupervisorAction::Wait { millis: 2000 },
            SupervisorAction::Attempt,
            SupervisorAction::Stay,
        ]
    );
}

#[test]
fn no_failure_is_one_attempt() {
    let (s, asked) = fails_then_succeeds(0, 10);
    assert_eq!(s.attempts, 1);
    assert_eq!(s.link(), Link::Connected);
    assert_eq!(asked, vec![SupervisorAction::Attempt, SupervisorAction::Stay]);
}

#[test]
fn many_failures_are_counted_one_by_one() {
    let (s, asked) = fails_then_succeeds(250, 1);
    assert_eq!(s.attempts, 251);
    assert_eq!(asked.iter().filter(|a| **a == SupervisorAction::Attempt).count(), 251);
    assert_eq!(asked.iter().filter(|a| **a == SupervisorAction::Wait { millis: 1 }).count(), 250);
    assert_eq!(s.phase, Phase::Connected);
}

#[test]
fn attempt_counter_stops_at_the_largest_value() {
    let mut s = Supervisor { phase: Phase::Backoff, attempts: u64::MAX, backoff_millis: 1 };
    assert_eq!(s.step(SupervisorEvent::BackoffElapsed), SupervisorAction::Attempt);
    assert_eq!(s.attempts, u64::MAX);
}

#[test]
fn stop_halts_for_good() {
    let mut s = Supervisor::new(500);
    s.step(SupervisorEvent::Start);
    assert_eq!(s.step(SupervisorEvent::Stop), SupervisorAction::Halt);
    assert_eq!(s.phase, Phase::Stopped);
    assert_eq!(s.step(SupervisorEvent::Start), SupervisorAction::Halt);
    assert_eq!(s.step(SupervisorEvent::BackoffElapsed), SupervisorAction::Halt);
    assert_eq!(s.step(SupervisorEvent::Acknowledged), SupervisorAction::Halt);
    assert_eq!(s.phase, Phase::Stopped);
    assert_eq!(s.attempts, 1);
}

#[test]
fn events_out_of_place_change_nothing() {
    let mut s = Supervisor::new(500);
    assert_eq!(s.step(SupervisorEvent::Acknowledged), SupervisorAction::Stay);
    assert_eq!(s.step(SupervisorEvent::SessionEnded), SupervisorAction::Stay);
    assert_eq!(s.step(SupervisorEvent::BackoffElapsed), SupervisorAction::Stay);
    assert_eq!(s, Supervisor::new(500));
    s.step(SupervisorEvent::Start);
    assert_eq!(s.step(SupervisorEvent::Start), SupervisorAction::Stay);
    assert_eq!(s.step(SupervisorEvent::BackoffElapsed), SupervisorAction::Stay);
    assert_eq!(s.attempts, 1);
    s.step(SupervisorEvent::Acknowledged);
    assert_eq!(s.step(SupervisorEvent::Acknowledged), SupervisorAction::Stay);
    assert_eq!(s.phase, Phase::Connected);
}
