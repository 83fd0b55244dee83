//! The reconnection supervisor: when to open the event stream again.
//!
//! The supervisor keeps the link to the compositor up. It asks for a session
//! attempt, and whenever the attempt or the session that came of it ends,
//! cleanly or not, it asks for a fixed wait and then for the next attempt,
//! without end. It does none of this itself: [`Supervisor::step`] takes what
//! happened and returns what to do next.

use vstd::prelude::*;

verus! {

/// Whether the event stream is up.
#[derive(Clone, Copy, Debug, PartialEq, Eq, Structural)]
pub enum Link {
    /// No acknowledged session is running.
    Disconnected,
    /// The compositor acknowledged the subscription and the stream is read.
    Connected,
}

/// Where the supervisor stands.
#[derive(Clone, Copy, Debug, PartialEq, Eq, Structural)]
pub enum Phase {
    /// Not started yet.
    Idle,
    /// A session attempt is under way and not acknowledged yet.
    Connecting,
    /// The session is acknowledged and runs.
    Connected,
    /// The last session ended; the wait before the next attempt runs.
    Backoff,
    /// Stopped for good.
    Stopped,
}

/// What happened, as the supervisor is told.
#[derive(Clone, Copy, Debug, PartialEq, Eq, Structural)]
pub enum SupervisorEvent {
    /// The supervisor is started.
    Start,
    /// The compositor acknowledged the subscription.
    Acknowledged,
    /// The attempt or the session ended, cleanly or with an error.
    SessionEnded,
    /// The wait is over.
    BackoffElapsed,
    /// The supervisor is told to stop.
    Stop,
}

/// What the supervisor asks for.
#[derive(Clone, Copy, Debug, PartialEq, Eq, Structural)]
pub enum SupervisorAction {
    /// Open a session.
    Attempt,
    /// Wait this long, then report that the wait is over.
    Wait { millis: u64 },
    /// Nothing new: go on with what is under way.
    Stay,
    /// Stop; nothing more will be asked for.
    Halt,
}

/// The wait between a session's end and the next attempt, in milliseconds,
/// where none is configured.
pub const DEFAULT_BACKOFF_MILLIS: u64 = 2000;

/// The reconnection supervisor.
#[derive(Clone, Copy, Debug, PartialEq, Eq, Structural)]
pub struct Supervisor {
    /// Where the supervisor stands.
    pub phase: Phase,
    /// How many sessions were attempted so far; the count stops at the
    /// largest `u64`.
    pub attempts: u64,
    /// The wait between a session's end and the next attempt.
    pub backoff_millis: u64,
}

/// The attempt counter after one more attempt.
pub open spec fn one_more_attempt(attempts: u64) -> u64 {
    if attempts < u64::MAX {
        (attempts + 1) as u64
    } else {
        attempts
    }
}

/// The supervisor as it is before it is started.
pub open spec fn idle(backoff_millis: u64) -> Supervisor {
    Supervisor { phase: Phase::Idle, attempts: 0, backoff_millis }
}

/// The link that a phase stands for.
pub open spec fn link_of(phase: Phase) -> Link {
    if phase == Phase::Connected {
        Link::Connected
    } else {
        Link::Disconnected
    }
}

/// The supervisor's transition: where it stands after `event`, and what it
/// asks for. An event that means nothing where the supervisor stands
/// changes nothing.
pub open spec fn supervise(s: Supervisor, event: SupervisorEvent) -> (Supervisor, SupervisorAction) {
    match (s.phase, event) {
        (Phase::Stopped, _) => (s, SupervisorAction::Halt),
        (_, SupervisorEvent::Stop) => (
            Supervisor { phase: Phase::Stopped, ..s },
            SupervisorAction::Halt,
        ),
        (Phase::Idle, SupervisorEvent::Start) | (Phase::Backoff, SupervisorEvent::BackoffElapsed) => (
            Supervisor { phase: Phase::Connecting, attempts: one_more_attempt(s.attempts), ..s },
            SupervisorAction::Attempt,
        ),
        (Phase::Connecting, SupervisorEvent::Acknowledged) => (
            Supervisor { phase: Phase::Connected, ..s },
            SupervisorAction::Stay,
        ),
        (Phase::Connecting, SupervisorEvent::SessionEnded) | (
            Phase::Connected,
            SupervisorEvent::SessionEnded,
        ) => (
            Supervisor { phase: Phase::Backoff, ..s },
            SupervisorAction::Wait { millis: s.backoff_millis },
        ),
        _ => (s, SupervisorAction::Stay),
    }
}

impl Supervisor {
    /// A supervisor that is not started yet and will wait `backoff_millis`
    /// between a session's end and the next attempt.
    pub fn new(backoff_millis: u64) -> (s: Supervisor)
        ensures
            s == idle(backoff_millis),
    {
        Supervisor { phase: Phase::Idle, attempts: 0, backoff_millis }
    }

    /// Whether the event stream is up.
    pub fn link(&self) -> (link: Link)
        ensures
            link == link_of(self.phase),
    {
        match self.phase {
            Phase::Connected => Link::Connected,
            _ => Link::Disconnected,
        }
    }

    /// Takes what happened and returns what to do next.
    pub fn step(&mut self, event: SupervisorEvent) -> (action: SupervisorAction)
        ensures
            (*final(self), action) == supervise(*old(self), event),
    {
        match (self.phase, event) {
            (Phase::Stopped, _) => SupervisorAction::Halt,
            (_, SupervisorEvent::Stop) => {
                self.phase = Phase::Stopped;
                SupervisorAction::Halt
            },
            (Phase::Idle, SupervisorEvent::Start) | (
                Phase::Backoff,
                SupervisorEvent::BackoffElapsed,
            ) => {
                self.phase = Phase::Connecting;
                if self.attempts < u64::MAX {
                    self.attempts = self.attempts + 1;
                }
                SupervisorAction::Attempt
            },
            (Phase::Connecting, SupervisorEvent::Acknowledged) => {
                self.phase = Phase::Connected;
                SupervisorAction::Stay
            },
            (Phase::Connecting, SupervisorEvent::SessionEnded) | (
                Phase::Connected,
                SupervisorEvent::SessionEnded,
            ) => {
                self.phase = Phase::Backoff;
                SupervisorAction::Wait { millis: self.backoff_millis }
            },
            _ => SupervisorAction::Stay,
        }
    }
}

impl Default for Supervisor {
    fn default() -> (s: Supervisor)
        ensures
            s == idle(DEFAULT_BACKOFF_MILLIS),
    {
        Supervisor::new(DEFAULT_BACKOFF_MILLIS)
    }
}

/// Where the supervisor stands after a run of events.
pub open spec fn supervise_all(s: Supervisor, events: Seq<SupervisorEvent>) -> Supervisor
    decreases events.len(),
{
    if events.len() == 0 {
        s
    } else {
        supervise(supervise_all(s, events.drop_last()), events.last()).0
    }
}

/// What the supervisor asks for during a run of events, one action for each.
pub open spec fn actions_of(s: Supervisor, events: Seq<SupervisorEvent>) -> Seq<SupervisorAction>
    decreases events.len(),
{
    if events.len() == 0 {
        Seq::empty()
    } else {
        actions_of(s, events.drop_last()).push(
            supervise(supervise_all(s, events.drop_last()), events.last()).1,
        )
    }
}

/// How many of the actions ask for a session attempt.
pub open spec fn attempts_in(actions: Seq<SupervisorAction>) -> nat
    decreases actions.len(),
{
    if actions.len() == 0 {
        0
    } else {
        attempts_in(actions.drop_last()) + if actions.last() == SupervisorAction::Attempt {
            1nat
        } else {
            0nat
        }
    }
}

/// What a started supervisor is told while `failures` session attempts in a
/// row fail before they are acknowledged: each attempt ends, and the wait
/// that follows it elapses.
pub open spec fn failed_attempts(failures: nat) -> Seq<SupervisorEvent>
    decreases failures,
{
    if failures == 0 {
        seq![SupervisorEvent::Start]
    } else {
        failed_attempts((failures - 1) as nat).push(SupervisorEvent::SessionEnded).push(
            SupervisorEvent::BackoffElapsed,
        )
    }
}

/// What the supervisor asks for while `failures` attempts in a row fail: an
/// attempt, and after each failure the configured wait and a new attempt.
pub open spec fn retries(failures: nat, backoff_millis: u64) -> Seq<SupervisorAction>
    decreases failures,
{
    if failures == 0 {
        seq![SupervisorAction::Attempt]
    } else {
        retries((failures - 1) as nat, backoff_millis).push(
            SupervisorAction::Wait { millis: backoff_millis },
        ).push(SupervisorAction::Attempt)
    }
}

/// The attempt counter after `attempts` attempts.
pub open spec fn counted_attempts(attempts: nat) -> u64 {
    if attempts <= u64::MAX {
        attempts as u64
    } else {
        u64::MAX
    }
}

/// While attempts fail, the supervisor keeps trying: after `failures`
/// failures it has asked for `failures + 1` attempts, with the configured
/// wait before each new one, and the last attempt is under way.
pub proof fn lemma_retries_while_failing(backoff_millis: u64, failures: nat)
    ensures
        ({
            let start = idle(backoff_millis);
            let events = failed_attempts(failures);
            &&& supervise_all(start, events) == (Supervisor {
                phase: Phase::Connecting,
                attempts: counted_attempts(failures + 1),
                backoff_millis,
            })
            &&& actions_of(start, events) == retries(failures, backoff_millis)
            &&& attempts_in(retries(failures, backoff_millis)) == failures + 1
        }),
    decreases failures,
{
    let start = idle(backoff_millis);
    let events = failed_attempts(failures);
    if failures == 0 {
        assert(events.drop_last() =~= Seq::empty());
        assert(events.last() == SupervisorEvent::Start);
        assert(supervise_all(start, events.drop_last()) == start);
        assert(actions_of(start, events.drop_last()) =~= Seq::empty());
        assert(actions_of(start, events) =~= seq![SupervisorAction::Attempt]);
        let first = retries(0, backoff_millis);
        assert(first.drop_last() =~= Seq::empty());
        assert(first.last() == SupervisorAction::Attempt);
        assert(attempts_in(first.drop_last()) == 0);
    } else {
        let earlier = failed_attempts((failures - 1) as nat);
        lemma_retries_while_failing(backoff_millis, (failures - 1) as nat);
        let ended = earlier.push(SupervisorEvent::SessionEnded);
        assert(ended.drop_last() =~= earlier);
        assert(ended.last() == SupervisorEvent::SessionEnded);
        assert(events.drop_last() =~= ended);
        assert(events.last() == SupervisorEvent::BackoffElapsed);
        let trying = supervise_all(start, earlier);
        let waiting = supervise_all(start, ended);
        assert(waiting == supervise(trying, SupervisorEvent::SessionEnded).0);
        assert(waiting.phase == Phase::Backoff);
        assert(supervise_all(start, events) == supervise(
            waiting,
            SupervisorEvent::BackoffElapsed,
        ).0);
        let before = retries((failures - 1) as nat, backoff_millis);
        let waits = before.push(SupervisorAction::Wait { millis: backoff_millis });
        assert(actions_of(start, ended) == waits);
        let all = retries(failures, backoff_millis);
        assert(actions_of(start, events) == all);
        assert(all.drop_last() =~= waits);
        assert(all.last() == SupervisorAction::Attempt);
        assert(waits.drop_last() =~= before);
        assert(waits.last() == (SupervisorAction::Wait { millis: backoff_millis }));
        assert(attempts_in(waits) == failures);
    }
}

/// Where session attempts fail `failures` times in a row and the next one
/// is acknowledged, the supervisor has asked for exactly `failures + 1`
/// attempts, has asked for the configured wait between any two of them, and
/// ends connected.
pub proof fn lemma_reconnects_after_failures(backoff_millis: u64, failures: nat)
    ensures
        ({
            let start = idle(backoff_millis);
            let events = failed_attempts(failures).push(SupervisorEvent::Acknowledged);
            let end = supervise_all(start, events);
            let asked = actions_of(start, events);
            &&& end.phase == Phase::Connected
            &&& link_of(end.phase) == Link::Connected
            &&& end.attempts == counted_attempts(failures + 1)
            &&& asked == retries(failures, backoff_millis).push(SupervisorAction::Stay)
            &&& attempts_in(asked) == failures + 1
        }),
{
    let start = idle(backoff_millis);
    let failing = failed_attempts(failures);
    let events = failing.push(SupervisorEvent::Acknowledged);
    lemma_retries_while_failing(backoff_millis, failures);
    assert(events.drop_last() =~= failing);
    assert(events.last() == SupervisorEvent::Acknowledged);
    let asked = retries(failures, backoff_millis).push(SupervisorAction::Stay);
    assert(asked.drop_last() =~= retries(failures, backoff_millis));
    assert(asked.last() == SupervisorAction::Stay);
}

} // verus!
