//! One event stream session: from the subscription to the stream's end.
//!
//! A session starts by sending the subscription request. The first line it
//! reads must be the compositor's acknowledgment; every later line is an
//! event, which is folded into the state and then published. A line that is
//! no event is skipped. An empty read ends the session cleanly.

use crate::error::{error_view, NiriError, NiriErrorView};
use crate::fanout::{fanout_within_bound, published, Fanout};
use crate::reducer::reduce;
use crate::text::trimmed;
use crate::types::{NiriEvent, NiriEventView, NiriState, NiriStateView};
use crate::wire::{
    decode_event, decode_reply, decoded_view, encode_request, event_of, reply_of, request_json,
    NiriRequest, WireReply, WireReplyView, NEWLINE,
};
use vstd::prelude::*;
use vstd::string::StringExecFns;

verus! {

/// How far a session has come.
#[derive(Clone, Copy, Debug, PartialEq, Eq, Structural)]
pub enum SessionPhase {
    /// The subscription is sent and not acknowledged yet.
    AwaitingAck,
    /// The subscription is acknowledged; events are read.
    Streaming,
    /// The session is over.
    Ended,
}

/// What a session made of what it was handed.
#[derive(Debug, PartialEq, Eq)]
pub enum SessionStep {
    /// The compositor acknowledged the subscription.
    Subscribed,
    /// An event was folded into the state and then published.
    Applied,
    /// The line was no event and was skipped; the parser's words say why.
    Skipped { detail: String },
    /// The session is over: cleanly, or with the error given.
    Ended { error: Option<NiriError> },
    /// The session was over before; nothing was done.
    Ignored,
}

/// Mathematical value of a [`SessionStep`].
pub enum SessionStepView {
    Subscribed,
    Applied,
    Skipped { detail: Seq<char> },
    Ended { error: Option<NiriErrorView> },
    Ignored,
}

impl View for SessionStep {
    type V = SessionStepView;

    open spec fn view(&self) -> SessionStepView {
        match *self {
            SessionStep::Subscribed => SessionStepView::Subscribed,
            SessionStep::Applied => SessionStepView::Applied,
            SessionStep::Skipped { detail } => SessionStepView::Skipped { detail: detail@ },
            SessionStep::Ended { error } => SessionStepView::Ended { error: error_view(error) },
            SessionStep::Ignored => SessionStepView::Ignored,
        }
    }
}

/// What a session that awaits its acknowledgment makes of a reply: it
/// streams after an accepting reply, and is over after any other.
pub open spec fn after_reply(reply: WireReplyView) -> (SessionPhase, SessionStepView) {
    match reply {
        WireReplyView::Accepted => (SessionPhase::Streaming, SessionStepView::Subscribed),
        WireReplyView::Rejected { message } => (
            SessionPhase::Ended,
            SessionStepView::Ended { error: Some(NiriErrorView::ProtocolReject(message)) },
        ),
        WireReplyView::Malformed { detail } => (
            SessionPhase::Ended,
            SessionStepView::Ended { error: Some(NiriErrorView::Decode(detail)) },
        ),
    }
}

/// A session of the event stream.
#[derive(Clone, Copy, Debug, PartialEq, Eq, Structural)]
pub struct Session {
    /// How far the session has come.
    pub phase: SessionPhase,
}

/// All that a streaming session changes: the state and the fanout's queues.
pub struct Streamed {
    pub phase: SessionPhase,
    pub state: NiriStateView,
    pub subscribers: Seq<crate::fanout::SubscriptionView>,
    pub step: SessionStepView,
}

/// What a streaming session makes of a read: an empty read ends it; an
/// event is folded into the state and offered to every subscriber; any
/// other line changes nothing.
pub open spec fn after_read(
    state: NiriStateView,
    subscribers: Seq<crate::fanout::SubscriptionView>,
    end_of_stream: bool,
    decoded: Result<NiriEventView, Seq<char>>,
) -> Streamed {
    if end_of_stream {
        Streamed {
            phase: SessionPhase::Ended,
            state,
            subscribers,
            step: SessionStepView::Ended { error: None },
        }
    } else {
        match decoded {
            Ok(event) => Streamed {
                phase: SessionPhase::Streaming,
                state: reduce(state, event),
                subscribers: published(subscribers, event),
                step: SessionStepView::Applied,
            },
            Err(detail) => Streamed {
                phase: SessionPhase::Streaming,
                state,
                subscribers,
                step: SessionStepView::Skipped { detail },
            },
        }
    }
}

/// What a session makes of a line that was read, whatever its phase.
pub open spec fn after_line(
    phase: SessionPhase,
    state: NiriStateView,
    subscribers: Seq<crate::fanout::SubscriptionView>,
    line: Seq<char>,
) -> Streamed {
    match phase {
        SessionPhase::AwaitingAck => Streamed {
            phase: after_reply(reply_of(trimmed(line))).0,
            state,
            subscribers,
            step: after_reply(reply_of(trimmed(line))).1,
        },
        SessionPhase::Streaming => after_read(
            state,
            subscribers,
            line.len() == 0,
            event_of(trimmed(line)),
        ),
        SessionPhase::Ended => Streamed { phase, state, subscribers, step: SessionStepView::Ignored },
    }
}

impl Session {
    /// A session whose subscription is about to be sent.
    pub fn new() -> (session: Session)
        ensures
            session.phase == SessionPhase::AwaitingAck,
    {
        Session { phase: SessionPhase::AwaitingAck }
    }

    /// The message that subscribes to the event stream; a local error where
    /// it cannot be written.
    pub fn subscription() -> (message: Result<Vec<u8>, NiriError>)
        ensures
            match request_json(NiriRequest::EventStream) {
                Some(json) => message is Ok && message->Ok_0@ == json.push(NEWLINE),
                None => message is Err && message->Err_0 is Local,
            },
    {
        match encode_request(&NiriRequest::EventStream) {
            Some(message) => Ok(message),
            None => Err(NiriError::Local(String::from_str("the subscription cannot be encoded"))),
        }
    }

    /// Takes the reply to the subscription. The session streams after an
    /// accepting reply; a rejection or a line that is no reply ends it with
    /// the matching error. A session that does not await a reply ignores it.
    pub fn on_reply(&mut self, reply: WireReply) -> (step: SessionStep)
        ensures
            old(self).phase == SessionPhase::AwaitingAck ==> (final(self).phase, step@)
                == after_reply(reply@),
            old(self).phase != SessionPhase::AwaitingAck ==> final(self).phase == old(self).phase
                && step@ == SessionStepView::Ignored,
    {
        match self.phase {
            SessionPhase::AwaitingAck => match reply {
                WireReply::Accepted => {
                    self.phase = SessionPhase::Streaming;
                    SessionStep::Subscribed
                },
                WireReply::Rejected { message } => {
                    self.phase = SessionPhase::Ended;
                    SessionStep::Ended { error: Some(NiriError::ProtocolReject(message)) }
                },
                WireReply::Malformed { detail } => {
                    self.phase = SessionPhase::Ended;
                    SessionStep::Ended { error: Some(NiriError::Decode(detail)) }
                },
            },
            _ => SessionStep::Ignored,
        }
    }

    /// Takes what was read from the stream: the end of the stream, or what a
    /// line decoded to. An event is folded into `state` first and published
    /// on `fanout` after that, so that whoever hears of the event finds the
    /// state updated for it. A session that does not stream ignores the read.
    pub fn on_read(
        &mut self,
        state: &mut NiriState,
        fanout: &mut Fanout,
        end_of_stream: bool,
        decoded: Result<NiriEvent, String>,
    ) -> (step: SessionStep)
        requires
            fanout_within_bound(old(fanout)@),
        ensures
            fanout_within_bound(final(fanout)@),
            final(fanout)@.capacity == old(fanout)@.capacity,
            old(self).phase == SessionPhase::Streaming ==> (Streamed {
                phase: final(self).phase,
                state: final(state)@,
                subscribers: final(fanout)@.subscribers,
                step: step@,
            }) == after_read(
                old(state)@,
                old(fanout)@.subscribers,
                end_of_stream,
                decoded_view(decoded),
            ),
            old(self).phase != SessionPhase::Streaming ==> final(self).phase == old(self).phase
                && final(state)@ == old(state)@ && final(fanout)@ == old(fanout)@ && step@
                == SessionStepView::Ignored,
    {
        match self.phase {
            SessionPhase::Streaming => {
                if end_of_stream {
                    self.phase = SessionPhase::Ended;
                    return SessionStep::Ended { error: None };
                }
                match decoded {
                    Ok(event) => {
                        state.apply_event(&event);
                        let _ = fanout.publish(&event);
                        SessionStep::Applied
                    },
                    Err(detail) => SessionStep::Skipped { detail },
                }
            },
            _ => SessionStep::Ignored,
        }
    }

    /// Takes a line that was read from the socket; an empty line stands for
    /// the end of the stream.
    pub fn on_line(&mut self, state: &mut NiriState, fanout: &mut Fanout, line: &str) -> (step:
        SessionStep)
        requires
            fanout_within_bound(old(fanout)@),
        ensures
            fanout_within_bound(final(fanout)@),
            final(fanout)@.capacity == old(fanout)@.capacity,
            (Streamed {
                phase: final(self).phase,
                state: final(state)@,
                subscribers: final(fanout)@.subscribers,
                step: step@,
            }) == after_line(old(self).phase, old(state)@, old(fanout)@.subscribers, line@),
    {
        match self.phase {
            SessionPhase::AwaitingAck => self.on_reply(decode_reply(line)),
            SessionPhase::Streaming => {
                if line.is_empty() {
                    self.on_read(state, fanout, true, Err(String::new()))
                } else {
                    self.on_read(state, fanout, false, decode_event(line))
                }
            },
            SessionPhase::Ended => SessionStep::Ignored,
        }
    }

    /// Takes a failure of the socket: the session is over with a transport
    /// error, unless it was over before.
    pub fn on_failure(&mut self, detail: String) -> (step: SessionStep)
        ensures
            final(self).phase == SessionPhase::Ended,
            old(self).phase != SessionPhase::Ended ==> step@ == (SessionStepView::Ended {
                error: Some(NiriErrorView::Transport(detail@)),
            }),
            old(self).phase == SessionPhase::Ended ==> step@ == SessionStepView::Ignored,
    {
        match self.phase {
            SessionPhase::Ended => SessionStep::Ignored,
            _ => {
                self.phase = SessionPhase::Ended;
                SessionStep::Ended { error: Some(NiriError::Transport(detail)) }
            },
        }
    }
}

} // verus!
