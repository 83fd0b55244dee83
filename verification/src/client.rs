//! The client: the aggregated state, the event fanout, and the decisions of
//! the two ways in which the client talks to the compositor.
//!
//! A request is one round trip on a connection of its own:
//! [`NiriClient::request`] gives the bytes to send and [`NiriClient::reply`]
//! reads the one line that comes back. The event stream is one long-lived
//! connection that is opened again whenever it ends:
//! [`NiriClient::run_event_stream`] takes what happened on that connection
//! and says what to do next.

use crate::error::{error_view, NiriError, NiriErrorView};
use crate::fanout::{fanout_within_bound, Fanout, FanoutView, SubscriptionView};
use crate::session::{after_line, Session, SessionPhase, SessionStep, SessionStepView};
use crate::text::trimmed;
use crate::fanout::published;
use crate::reducer::reduce;
use crate::supervisor::{
    idle, link_of, supervise, Link, Phase, Supervisor, SupervisorAction, SupervisorEvent,
    DEFAULT_BACKOFF_MILLIS,
};
use crate::wire::event_of;
use crate::types::{empty_state, NiriEventView, NiriState, NiriStateView};
use crate::wire::{
    decode_reply, encode_request, reply_of, request_json, NiriRequest, WireReply,
    WireReplyView, NEWLINE,
};
use vstd::prelude::*;
use vstd::string::StringExecFns;

verus! {

/// How many unread events each subscriber's queue holds.
pub const EVENT_BUFFER: usize = 256;

/// The client's side of the compositor's IPC.
#[derive(Debug)]
pub struct NiriClient {
    /// The aggregated state.
    pub state: NiriState,
    /// The fanout on which every event is published once it is folded.
    pub event_tx: Fanout,
    /// The supervisor of the event stream.
    pub supervisor: Supervisor,
    /// The running session of the event stream, or the last one.
    pub session: Session,
}

/// Mathematical value of a [`NiriClient`].
pub struct NiriClientView {
    pub state: NiriStateView,
    pub events: FanoutView,
    pub supervisor: Supervisor,
    pub session: SessionPhase,
}

impl View for NiriClient {
    type V = NiriClientView;

    open spec fn view(&self) -> NiriClientView {
        NiriClientView {
            state: self.state@,
            events: self.event_tx@,
            supervisor: self.supervisor,
            session: self.session.phase,
        }
    }
}

/// What happened on the event stream's connection.
#[derive(Debug, PartialEq, Eq)]
pub enum StreamInput {
    /// The client is started.
    Start,
    /// The connection is open and the subscription is sent.
    Opened,
    /// A line was read; an empty one stands for the end of the stream.
    Line { text: String },
    /// Connecting, writing or reading failed.
    Failed { detail: String },
    /// The wait before the next attempt is over.
    BackoffElapsed,
    /// The client is told to stop.
    Stop,
}

/// Mathematical value of a [`StreamInput`].
pub enum StreamInputView {
    Start,
    Opened,
    Line { text: Seq<char> },
    Failed { detail: Seq<char> },
    BackoffElapsed,
    Stop,
}

impl View for StreamInput {
    type V = StreamInputView;

    open spec fn view(&self) -> StreamInputView {
        match *self {
            StreamInput::Start => StreamInputView::Start,
            StreamInput::Opened => StreamInputView::Opened,
            StreamInput::Line { text } => StreamInputView::Line { text: text@ },
            StreamInput::Failed { detail } => StreamInputView::Failed { detail: detail@ },
            StreamInput::BackoffElapsed => StreamInputView::BackoffElapsed,
            StreamInput::Stop => StreamInputView::Stop,
        }
    }
}

/// What to do next on the event stream's connection.
#[derive(Debug, PartialEq, Eq)]
pub enum StreamAction {
    /// Open a connection, send `message`, and report [`StreamInput::Opened`].
    Open { message: Vec<u8> },
    /// Read the next line and report it. Where the line before was skipped,
    /// `skipped` holds the parser's words for why.
    Read { skipped: Option<String> },
    /// Drop the connection, wait, and report [`StreamInput::BackoffElapsed`].
    /// `error` tells why the session ended, unless it ended cleanly.
    Wait { millis: u64, error: Option<NiriError> },
    /// Nothing to do: the input meant nothing where the client stands.
    Idle,
    /// Drop the connection and stop.
    Halt,
}

/// Mathematical value of a [`StreamAction`].
pub enum StreamActionView {
    Open { message: Seq<u8> },
    Read { skipped: Option<Seq<char>> },
    Wait { millis: u64, error: Option<NiriErrorView> },
    Idle,
    Halt,
}

impl View for StreamAction {
    type V = StreamActionView;

    open spec fn view(&self) -> StreamActionView {
        match *self {
            StreamAction::Open { message } => StreamActionView::Open { message: message@ },
            StreamAction::Read { skipped } => StreamActionView::Read {
                skipped: crate::types::text_view(skipped),
            },
            StreamAction::Wait { millis, error } => StreamActionView::Wait {
                millis,
                error: error_view(error),
            },
            StreamAction::Idle => StreamActionView::Idle,
            StreamAction::Halt => StreamActionView::Halt,
        }
    }
}

/// The client before anything has happened: an empty state, one subscriber
/// with an empty queue, and a supervisor that is not started.
pub open spec fn initial_client() -> NiriClientView {
    NiriClientView {
        state: empty_state(),
        events: FanoutView {
            capacity: EVENT_BUFFER as nat,
            subscribers: seq![
                SubscriptionView {
                    capacity: EVENT_BUFFER as nat,
                    pending: Seq::empty(),
                    missed: 0,
                },
            ],
        },
        supervisor: idle(DEFAULT_BACKOFF_MILLIS),
        session: SessionPhase::Ended,
    }
}

/// What a caller of a request gets for a reply: nothing to report for an
/// accepting reply, the compositor's message as a protocol rejection, and a
/// decode failure for a line that is no reply.
pub open spec fn outcome_of(reply: WireReplyView) -> Result<(), NiriErrorView> {
    match reply {
        WireReplyView::Accepted => Ok(()),
        WireReplyView::Rejected { message } => Err(NiriErrorView::ProtocolReject(message)),
        WireReplyView::Malformed { detail } => Err(NiriErrorView::Decode(detail)),
    }
}

/// Mathematical value of a request's outcome.
pub open spec fn outcome_view(outcome: Result<(), NiriError>) -> Result<(), NiriErrorView> {
    match outcome {
        Ok(()) => Ok(()),
        Err(error) => Err(error@),
    }
}

/// What a caller of a request gets for a reply.
pub fn reply_outcome(reply: WireReply) -> (outcome: Result<(), NiriError>)
    ensures
        outcome_view(outcome) == outcome_of(reply@),
{
    match reply {
        WireReply::Accepted => Ok(()),
        WireReply::Rejected { message } => Err(NiriError::ProtocolReject(message)),
        WireReply::Malformed { detail } => Err(NiriError::Decode(detail)),
    }
}

/// Whether a session attempt is under way or a session runs.
pub open spec fn session_runs(phase: Phase) -> bool {
    phase == Phase::Connecting || phase == Phase::Connected
}

/// What the client asks for where the supervisor asks for `action` and no
/// session has just ended with an error.
pub open spec fn plain_action(action: SupervisorAction) -> StreamActionView {
    match action {
        SupervisorAction::Wait { millis } => StreamActionView::Wait { millis, error: None },
        SupervisorAction::Halt => StreamActionView::Halt,
        _ => StreamActionView::Idle,
    }
}

/// The client once its session has ended, and what it asks for: the
/// supervisor is told, and its wait carries the session's error.
pub open spec fn after_session_end(client: NiriClientView, error: Option<NiriErrorView>) -> (
    NiriClientView,
    StreamActionView,
) {
    let (supervisor, action) = supervise(client.supervisor, SupervisorEvent::SessionEnded);
    (
        NiriClientView { supervisor, session: SessionPhase::Ended, ..client },
        match action {
            SupervisorAction::Wait { millis } => StreamActionView::Wait { millis, error },
            other => plain_action(other),
        },
    )
}

/// The client once the supervisor was told `event`, one of the two that can
/// start an attempt, and what it asks for: to open a connection with the
/// subscription, where the supervisor asks for an attempt.
pub open spec fn after_begin(client: NiriClientView, event: SupervisorEvent) -> (
    NiriClientView,
    StreamActionView,
) {
    let (supervisor, action) = supervise(client.supervisor, event);
    let told = NiriClientView { supervisor, ..client };
    if action == SupervisorAction::Attempt {
        match request_json(NiriRequest::EventStream) {
            Some(json) => (
                NiriClientView { session: SessionPhase::AwaitingAck, ..told },
                StreamActionView::Open { message: json.push(NEWLINE) },
            ),
            None => after_session_end(
                told,
                Some(NiriErrorView::Local("the subscription cannot be encoded"@)),
            ),
        }
    } else {
        (told, plain_action(action))
    }
}

/// The client once its session has made `step` of a line or a failure, and
/// what it asks for.
pub open spec fn after_step(client: NiriClientView, step: SessionStepView) -> (
    NiriClientView,
    StreamActionView,
) {
    match step {
        SessionStepView::Subscribed => (
            NiriClientView {
                supervisor: supervise(client.supervisor, SupervisorEvent::Acknowledged).0,
                ..client
            },
            StreamActionView::Read { skipped: None },
        ),
        SessionStepView::Applied => (client, StreamActionView::Read { skipped: None }),
        SessionStepView::Skipped { detail } => (
            client,
            StreamActionView::Read { skipped: Some(detail) },
        ),
        SessionStepView::Ended { error } => after_session_end(client, error),
        SessionStepView::Ignored => (client, StreamActionView::Idle),
    }
}

/// The client's transition on the event stream: where it stands after
/// `input`, and what it asks for.
pub open spec fn stream_step(client: NiriClientView, input: StreamInputView) -> (
    NiriClientView,
    StreamActionView,
) {
    if client.supervisor.phase == Phase::Stopped {
        (client, StreamActionView::Halt)
    } else {
        match input {
            StreamInputView::Start => after_begin(client, SupervisorEvent::Start),
            StreamInputView::BackoffElapsed => after_begin(client, SupervisorEvent::BackoffElapsed),
            StreamInputView::Stop => (
                NiriClientView {
                    supervisor: supervise(client.supervisor, SupervisorEvent::Stop).0,
                    session: SessionPhase::Ended,
                    ..client
                },
                StreamActionView::Halt,
            ),
            StreamInputView::Opened => if client.supervisor.phase == Phase::Connecting
                && client.session == SessionPhase::AwaitingAck {
                (client, StreamActionView::Read { skipped: None })
            } else {
                (client, StreamActionView::Idle)
            },
            StreamInputView::Line { text } => if session_runs(client.supervisor.phase) {
                let made = after_line(client.session, client.state, client.events.subscribers, text);
                after_step(
                    NiriClientView {
                        state: made.state,
                        events: FanoutView {
                            capacity: client.events.capacity,
                            subscribers: made.subscribers,
                        },
                        session: made.phase,
                        ..client
                    },
                    made.step,
                )
            } else {
                (client, StreamActionView::Idle)
            },
            StreamInputView::Failed { detail } => if session_runs(client.supervisor.phase) {
                if client.session == SessionPhase::Ended {
                    (client, StreamActionView::Idle)
                } else {
                    after_session_end(client, Some(NiriErrorView::Transport(detail)))
                }
            } else {
                (client, StreamActionView::Idle)
            },
        }
    }
}

impl NiriClient {
    /// A client before anything has happened, and the number of its first
    /// subscriber.
    pub fn new() -> (made: (NiriClient, usize))
        ensures
            made.0@ == initial_client(),
            made.1 == 0,
            fanout_within_bound(made.0.event_tx@),
    {
        let mut event_tx = Fanout::new(EVENT_BUFFER);
        let subscriber = event_tx.subscribe();
        let client = NiriClient {
            state: NiriState::default(),
            event_tx,
            supervisor: Supervisor::new(DEFAULT_BACKOFF_MILLIS),
            session: Session { phase: SessionPhase::Ended },
        };
        proof {
            assert(client@.events.subscribers =~= initial_client().events.subscribers);
        }
        (client, subscriber)
    }

    /// The bytes to send for `request` on a fresh connection, before the
    /// write side is shut down; a local error where the request cannot be
    /// written.
    pub fn request(request: &NiriRequest) -> (message: Result<Vec<u8>, NiriError>)
        ensures
            match request_json(*request) {
                Some(json) => message is Ok && message->Ok_0@ == json.push(NEWLINE),
                None => message is Err && message->Err_0 is Local,
            },
    {
        match encode_request(request) {
            Some(message) => Ok(message),
            None => Err(NiriError::Local(String::from_str("the request cannot be encoded"))),
        }
    }

    /// Reads the one line that came back for a request.
    pub fn reply(line: &str) -> (outcome: Result<(), NiriError>)
        ensures
            outcome_view(outcome) == outcome_of(reply_of(trimmed(line@))),
    {
        reply_outcome(decode_reply(line))
    }

    fn end_session(&mut self, error: Option<NiriError>) -> (action: StreamAction)
        ensures
            (final(self)@, action@) == after_session_end(old(self)@, error_view(error)),
            final(self).event_tx@ == old(self).event_tx@,
    {
        self.session.phase = SessionPhase::Ended;
        match self.supervisor.step(SupervisorEvent::SessionEnded) {
            SupervisorAction::Wait { millis } => StreamAction::Wait { millis, error },
            SupervisorAction::Halt => StreamAction::Halt,
            _ => StreamAction::Idle,
        }
    }

    fn begin(&mut self, event: SupervisorEvent) -> (action: StreamAction)
        ensures
            (final(self)@, action@) == after_begin(old(self)@, event),
            final(self).event_tx@ == old(self).event_tx@,
    {
        match self.supervisor.step(event) {
            SupervisorAction::Attempt => match Session::subscription() {
                Ok(message) => {
                    self.session = Session::new();
                    StreamAction::Open { message }
                },
                Err(_) => {
                    let detail = String::from_str("the subscription cannot be encoded");
                    self.end_session(Some(NiriError::Local(detail)))
                },
            },
            SupervisorAction::Wait { millis } => StreamAction::Wait { millis, error: None },
            SupervisorAction::Halt => StreamAction::Halt,
            SupervisorAction::Stay => StreamAction::Idle,
        }
    }

    fn follow(&mut self, step: SessionStep) -> (action: StreamAction)
        ensures
            (final(self)@, action@) == after_step(old(self)@, step@),
            final(self).event_tx@ == old(self).event_tx@,
    {
        match step {
            SessionStep::Subscribed => {
                let _ = self.supervisor.step(SupervisorEvent::Acknowledged);
                StreamAction::Read { skipped: None }
            },
            SessionStep::Applied => StreamAction::Read { skipped: None },
            SessionStep::Skipped { detail } => StreamAction::Read { skipped: Some(detail) },
            SessionStep::Ended { error } => self.end_session(error),
            SessionStep::Ignored => StreamAction::Idle,
        }
    }

    /// Takes what happened on the event stream's connection and says what
    /// to do next. Between two calls the caller does what was asked for and
    /// nothing else; it holds no lock on the client while it does.
    pub fn run_event_stream(&mut self, input: StreamInput) -> (action: StreamAction)
        requires
            fanout_within_bound(old(self).event_tx@),
        ensures
            fanout_within_bound(final(self).event_tx@),
            (final(self)@, action@) == stream_step(old(self)@, input@),
    {
        if let Phase::Stopped = self.supervisor.phase {
            return StreamAction::Halt;
        }
        let running = match self.supervisor.phase {
            Phase::Connecting => true,
            Phase::Connected => true,
            _ => false,
        };
        match input {
            StreamInput::Start => self.begin(SupervisorEvent::Start),
            StreamInput::BackoffElapsed => self.begin(SupervisorEvent::BackoffElapsed),
            StreamInput::Stop => {
                let _ = self.supervisor.step(SupervisorEvent::Stop);
                self.session.phase = SessionPhase::Ended;
                StreamAction::Halt
            },
            StreamInput::Opened => {
                let awaited = match (self.supervisor.phase, self.session.phase) {
                    (Phase::Connecting, SessionPhase::AwaitingAck) => true,
                    _ => false,
                };
                if awaited {
                    StreamAction::Read { skipped: None }
                } else {
                    StreamAction::Idle
                }
            },
            StreamInput::Line { text } => {
                if running {
                    let step = self.session.on_line(
                        &mut self.state,
                        &mut self.event_tx,
                        text.as_str(),
                    );
                    self.follow(step)
                } else {
                    StreamAction::Idle
                }
            },
            StreamInput::Failed { detail } => {
                if running {
                    let step = self.session.on_failure(detail);
                    self.follow(step)
                } else {
                    StreamAction::Idle
                }
            },
        }
    }
}

/// Whether the supervisor and the session agree: a session awaits its
/// acknowledgment exactly while an attempt is under way, streams exactly
/// while the link is up, and is over at any other time.
pub open spec fn coherent(client: NiriClientView) -> bool {
    match client.supervisor.phase {
        Phase::Connecting => client.session == SessionPhase::AwaitingAck,
        Phase::Connected => client.session == SessionPhase::Streaming,
        _ => client.session == SessionPhase::Ended,
    }
}

/// A new client is coherent.
pub proof fn lemma_initial_client_is_coherent()
    ensures
        coherent(initial_client()),
{
}

/// Whatever happens on the connection, the supervisor and the session go
/// on agreeing: the link counts as up from the acknowledgment of the
/// subscription until the stream ends, and at no other time.
pub proof fn lemma_stream_step_keeps_coherent(client: NiriClientView, input: StreamInputView)
    requires
        coherent(client),
    ensures
        coherent(stream_step(client, input).0),
        link_of(stream_step(client, input).0.supervisor.phase) == Link::Connected <==> stream_step(
            client,
            input,
        ).0.session == SessionPhase::Streaming,
{
}

/// The event that the client folds into its state on `input`, if it folds
/// one: the event that a line holds which was read while the stream runs.
pub open spec fn folded_event(client: NiriClientView, input: StreamInputView) -> Option<
    NiriEventView,
> {
    match input {
        StreamInputView::Line { text } => if client.supervisor.phase != Phase::Stopped
            && session_runs(client.supervisor.phase) && client.session == SessionPhase::Streaming
            && text.len() > 0 {
            match event_of(trimmed(text)) {
                Ok(event) => Some(event),
                Err(_) => None,
            }
        } else {
            None
        },
        _ => None,
    }
}

/// The state is changed by nothing but an event that was read from a
/// running stream. That step folds the event into the state and publishes
/// it to every subscriber at once, so that no subscriber can hear of an
/// event before the state shows it. Through an outage, and through every
/// attempt to connect again, the state stays as the last event left it.
pub proof fn lemma_only_events_change_the_state(client: NiriClientView, input: StreamInputView)
    ensures
        ({
            let after = stream_step(client, input).0;
            &&& after.events.capacity == client.events.capacity
            &&& match folded_event(client, input) {
                Some(event) => after.state == reduce(client.state, event)
                    && after.events.subscribers == published(client.events.subscribers, event),
                None => after.state == client.state && after.events == client.events,
            }
        }),
{
}

} // verus!
