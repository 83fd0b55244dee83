//! The wire protocol adapter: one JSON message per line, in both directions.
//!
//! The JSON text itself is the work of `serde_json` on the message types of
//! `niri_ipc`. This module calls both behind small trusted functions, names
//! what they return, and proves the framing around them: the newline that
//! ends a request, and the trimming of a received line.

use crate::text::{trim, trimmed};
use crate::types::{window_views, NiriEvent, NiriEventView, Window, WindowView, Workspace};
use niri_ipc::Event as WireEvent;
use niri_ipc::{Action, Request, WorkspaceReferenceArg};
use vstd::prelude::*;

verus! {

/// A request the client sends to the compositor.
#[allow(inconsistent_fields)]
#[derive(Clone, Copy, Debug, PartialEq, Eq, Structural)]
pub enum NiriRequest {
    /// Start the event stream on this connection.
    EventStream,
    /// Focus the window with this identity.
    FocusWindow { id: u64 },
    /// Close the window with this identity, or the focused one.
    CloseWindow { id: Option<u64> },
    /// Move a window, or the focused one, to the workspace at an index; the
    /// focus follows the window where `focus` is set.
    MoveWindowToWorkspace { window_id: Option<u64>, workspace_index: u8, focus: bool },
    /// Focus the workspace at an index.
    FocusWorkspace { index: u8 },
}

/// The compositor's reply to a request, as far as the client reads it.
#[derive(Debug, PartialEq, Eq)]
pub enum WireReply {
    /// The compositor handled the request.
    Accepted,
    /// The compositor answered with an error of its own.
    Rejected { message: String },
    /// The line is not a reply.
    Malformed { detail: String },
}

/// Mathematical value of a [`WireReply`].
pub enum WireReplyView {
    Accepted,
    Rejected { message: Seq<char> },
    Malformed { detail: Seq<char> },
}

impl View for WireReply {
    type V = WireReplyView;

    open spec fn view(&self) -> WireReplyView {
        match *self {
            WireReply::Accepted => WireReplyView::Accepted,
            WireReply::Rejected { message } => WireReplyView::Rejected { message: message@ },
            WireReply::Malformed { detail } => WireReplyView::Malformed { detail: detail@ },
        }
    }
}

/// The kind of an event, with what it carries besides windows and workspaces.
#[allow(inconsistent_fields)]
#[derive(Clone, Copy, Debug, PartialEq, Eq, Structural)]
pub enum EventHead {
    WorkspacesChanged,
    WorkspaceActivated { id: u64, focused: bool },
    WindowsChanged,
    WindowOpenedOrChanged,
    WindowClosed { id: u64 },
    WindowFocusChanged { id: Option<u64> },
    Other,
}

/// The JSON text of a request as `serde_json` writes it, where it writes one.
pub uninterp spec fn request_json(request: NiriRequest) -> Option<Seq<u8>>;

/// What `serde_json` reads from a text as a reply.
pub uninterp spec fn reply_of(text: Seq<char>) -> WireReplyView;

/// What `serde_json` reads from a text as an event, or why it reads none.
pub uninterp spec fn event_of(text: Seq<char>) -> Result<NiriEventView, Seq<char>>;

/// The kind of an event.
pub open spec fn head_of(event: NiriEventView) -> EventHead {
    match event {
        NiriEventView::WorkspacesChanged { workspaces } => EventHead::WorkspacesChanged,
        NiriEventView::WorkspaceActivated { id, focused } => EventHead::WorkspaceActivated {
            id,
            focused,
        },
        NiriEventView::WindowsChanged { windows } => EventHead::WindowsChanged,
        NiriEventView::WindowOpenedOrChanged { window } => EventHead::WindowOpenedOrChanged,
        NiriEventView::WindowClosed { id } => EventHead::WindowClosed { id },
        NiriEventView::WindowFocusChanged { id } => EventHead::WindowFocusChanged { id },
        NiriEventView::Other => EventHead::Other,
    }
}

/// The workspaces an event carries.
pub open spec fn workspaces_of(event: NiriEventView) -> Seq<Workspace> {
    match event {
        NiriEventView::WorkspacesChanged { workspaces } => workspaces,
        _ => Seq::empty(),
    }
}

/// The windows an event carries.
pub open spec fn windows_of(event: NiriEventView) -> Seq<WindowView> {
    match event {
        NiriEventView::WindowsChanged { windows } => windows,
        NiriEventView::WindowOpenedOrChanged { window } => seq![window],
        _ => Seq::empty(),
    }
}

/// Calls `serde_json::to_vec` on the `niri_ipc::Request` that says what
/// `request` says. The contract claims only that the result depends on the
/// request alone; `request_json` is the name of that result.
#[verifier::external_body]
fn request_to_json(request: &NiriRequest) -> (json: Option<Vec<u8>>)
    ensures
        match json {
            Some(bytes) => request_json(*request) == Some(bytes@),
            None => request_json(*request) is None,
        },
{
    let wire = match *request {
        NiriRequest::EventStream => Request::EventStream,
        NiriRequest::FocusWindow { id } => Request::Action(Action::FocusWindow { id }),
        NiriRequest::CloseWindow { id } => Request::Action(Action::CloseWindow { id }),
        NiriRequest::MoveWindowToWorkspace { window_id, workspace_index, focus } => {
            let reference = WorkspaceReferenceArg::Index(workspace_index);
            Request::Action(Action::MoveWindowToWorkspace { window_id, reference, focus })
        },
        NiriRequest::FocusWorkspace { index } => {
            Request::Action(Action::FocusWorkspace { reference: WorkspaceReferenceArg::Index(index) })
        },
    };
    serde_json::to_vec(&wire).ok()
}

/// Calls `serde_json::from_str` for a `niri_ipc::Reply` and tells its three
/// outcomes apart: a reply that carries a response, a reply that carries the
/// compositor's error message, and a text that is no reply, with the
/// parser's words for why. The contract claims only that the result depends
/// on the text alone; `reply_of` is the name of that result.
#[verifier::external_body]
fn parse_reply(text: &str) -> (reply: WireReply)
    ensures
        reply@ == reply_of(text@),
{
    match serde_json::from_str::<niri_ipc::Reply>(text) {
        Ok(Ok(_)) => WireReply::Accepted,
        Ok(Err(message)) => WireReply::Rejected { message },
        Err(error) => WireReply::Malformed { detail: error.to_string() },
    }
}

/// Calls `serde_json::from_str` for a `niri_ipc::Event` and returns the
/// event's kind with the scalar fields of the kinds that the state tracks,
/// or the parser's words for why the text is no event. `event_of` is the
/// name of what the text parses to; the contract claims that the result is
/// the kind of that.
#[verifier::external_body]
fn parse_event_head(text: &str) -> (head: Result<EventHead, String>)
    ensures
        match head {
            Ok(kind) => event_of(text@) is Ok && kind == head_of(event_of(text@)->Ok_0),
            Err(detail) => event_of(text@) == Err::<NiriEventView, Seq<char>>(detail@),
        },
{
    match serde_json::from_str::<WireEvent>(text) {
        Err(error) => Err(error.to_string()),
        Ok(WireEvent::WorkspacesChanged { .. }) => Ok(EventHead::WorkspacesChanged),
        Ok(WireEvent::WorkspaceActivated { id, focused }) => {
            Ok(EventHead::WorkspaceActivated { id, focused })
        },
        Ok(WireEvent::WindowsChanged { .. }) => Ok(EventHead::WindowsChanged),
        Ok(WireEvent::WindowOpenedOrChanged { .. }) => Ok(EventHead::WindowOpenedOrChanged),
        Ok(WireEvent::WindowClosed { id }) => Ok(EventHead::WindowClosed { id }),
        Ok(WireEvent::WindowFocusChanged { id }) => Ok(EventHead::WindowFocusChanged { id }),
        Ok(_) => Ok(EventHead::Other),
    }
}

/// Calls `serde_json::from_str` for a `niri_ipc::Event` and returns the
/// workspaces of a workspaces-changed event, field for field; none for any
/// other event or text.
#[verifier::external_body]
fn parse_event_workspaces(text: &str) -> (workspaces: Vec<Workspace>)
    ensures
        event_of(text@) is Ok ==> workspaces@ == workspaces_of(event_of(text@)->Ok_0),
{
    match serde_json::from_str::<WireEvent>(text) {
        Ok(WireEvent::WorkspacesChanged { workspaces }) => workspaces
            .iter()
            .map(|w| Workspace { id: w.id, idx: w.idx, is_active: w.is_active, is_focused: w.is_focused })
            .collect(),
        _ => Vec::new(),
    }
}

/// Calls `serde_json::from_str` for a `niri_ipc::Event` and returns the
/// windows of a windows-changed event, or the one window of a
/// window-opened-or-changed event, field for field; none for any other event
/// or text.
#[verifier::external_body]
fn parse_event_windows(text: &str) -> (windows: Vec<Window>)
    ensures
        event_of(text@) is Ok ==> window_views(windows@) == windows_of(event_of(text@)->Ok_0),
{
    let list = match serde_json::from_str::<WireEvent>(text) {
        Ok(WireEvent::WindowsChanged { windows }) => windows,
        Ok(WireEvent::WindowOpenedOrChanged { window }) => vec![window],
        _ => Vec::new(),
    };
    let plain = |w: niri_ipc::Window| Window {
        id: w.id,
        workspace_id: w.workspace_id,
        is_focused: w.is_focused,
        title: w.title,
        app_id: w.app_id,
    };
    list.into_iter().map(plain).collect()
}

/// The bytes of the message that carries `request`: its JSON text and the
/// newline that ends the message. `None` where the text cannot be written.
pub fn encode_request(request: &NiriRequest) -> (message: Option<Vec<u8>>)
    ensures
        match request_json(*request) {
            Some(json) => message is Some && message.unwrap()@ == json.push(NEWLINE),
            None => message is None,
        },
{
    match request_to_json(request) {
        Some(mut bytes) => {
            bytes.push(NEWLINE);
            Some(bytes)
        },
        None => None,
    }
}

/// The byte that ends a message.
pub const NEWLINE: u8 = 10;

/// Reads a received line as the reply to a request. White space around the
/// text, the line's own newline included, is not part of the reply.
pub fn decode_reply(line: &str) -> (reply: WireReply)
    ensures
        reply@ == reply_of(trimmed(line@)),
{
    parse_reply(trim(line))
}

/// Mathematical value of a decoded event, or of the reason why there is none.
pub open spec fn decoded_view(decoded: Result<NiriEvent, String>) -> Result<
    NiriEventView,
    Seq<char>,
> {
    match decoded {
        Ok(event) => Ok(event@),
        Err(detail) => Err(detail@),
    }
}

/// Reads a received line as an event of the stream; `Err` with the parser's
/// words where the line is none. White space around the text is not part of
/// the event.
pub fn decode_event(line: &str) -> (decoded: Result<NiriEvent, String>)
    ensures
        decoded_view(decoded) == event_of(trimmed(line@)),
{
    let text = trim(line);
    match parse_event_head(text) {
        Err(detail) => Err(detail),
        Ok(EventHead::WorkspacesChanged) => Ok(
            NiriEvent::WorkspacesChanged { workspaces: parse_event_workspaces(text) },
        ),
        Ok(EventHead::WorkspaceActivated { id, focused }) => Ok(
            NiriEvent::WorkspaceActivated { id, focused },
        ),
        Ok(EventHead::WindowsChanged) => Ok(
            NiriEvent::WindowsChanged { windows: parse_event_windows(text) },
        ),
        Ok(EventHead::WindowOpenedOrChanged) => {
            let mut windows = parse_event_windows(text);
            proof {
                assert(window_views(windows@).len() == 1);
                assert(window_views(windows@)[0] == windows@[0]@);
            }
            match windows.pop() {
                Some(window) => Ok(NiriEvent::WindowOpenedOrChanged { window }),
                None => Ok(NiriEvent::Other),
            }
        },
        Ok(EventHead::WindowClosed { id }) => Ok(NiriEvent::WindowClosed { id }),
        Ok(EventHead::WindowFocusChanged { id }) => Ok(NiriEvent::WindowFocusChanged { id }),
        Ok(EventHead::Other) => Ok(NiriEvent::Other),
    }
}

} // verus!
