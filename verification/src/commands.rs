//! What the user interface asks of the client: a copy of the state, and one
//! request for each action it offers.

use crate::client::NiriClient;
use crate::error::{message_of, NiriError, NiriErrorView};
use crate::types::NiriState;
use crate::wire::NiriRequest;
use vstd::prelude::*;

verus! {

/// The application's store: the one client that every part of the
/// application is handed.
#[derive(Debug)]
pub struct AppState {
    /// The client.
    pub client: NiriClient,
}

/// A copy of the aggregated state as it is now.
pub fn get_state(state: &AppState) -> (snapshot: Result<NiriState, String>)
    ensures
        snapshot is Ok,
        snapshot->Ok_0@ == state.client.state@,
{
    Ok(state.client.state.clone())
}

/// The request that focuses window `id`.
pub fn focus_window(id: u64) -> (request: NiriRequest)
    ensures
        request == (NiriRequest::FocusWindow { id }),
{
    NiriRequest::FocusWindow { id }
}

/// The request that closes window `id`.
pub fn close_window(id: u64) -> (request: NiriRequest)
    ensures
        request == (NiriRequest::CloseWindow { id: Some(id) }),
{
    NiriRequest::CloseWindow { id: Some(id) }
}

/// The request that moves window `window_id` to the workspace at
/// `workspace_index`; the focus stays where it is.
pub fn move_window_to_workspace(window_id: u64, workspace_index: u8) -> (request: NiriRequest)
    ensures
        request == (NiriRequest::MoveWindowToWorkspace {
            window_id: Some(window_id),
            workspace_index,
            focus: false,
        }),
{
    NiriRequest::MoveWindowToWorkspace { window_id: Some(window_id), workspace_index, focus: false }
}

/// The request that focuses the workspace at `index`.
pub fn focus_workspace(index: u8) -> (request: NiriRequest)
    ensures
        request == (NiriRequest::FocusWorkspace { index }),
{
    NiriRequest::FocusWorkspace { index }
}

/// What the user interface is told of a request's outcome: nothing for a
/// success, the failure's words for a failure.
pub open spec fn reported(outcome: Result<(), NiriErrorView>) -> Result<(), Seq<char>> {
    match outcome {
        Ok(()) => Ok(()),
        Err(error) => Err(message_of(error)),
    }
}

/// Mathematical value of what the user interface is told.
pub open spec fn report_view(report: Result<(), String>) -> Result<(), Seq<char>> {
    match report {
        Ok(()) => Ok(()),
        Err(words) => Err(words@),
    }
}

/// What the user interface is told of a request's outcome.
pub fn command_result(outcome: Result<(), NiriError>) -> (report: Result<(), String>)
    ensures
        report_view(report) == reported(crate::client::outcome_view(outcome)),
{
    match outcome {
        Ok(()) => Ok(()),
        Err(error) => Err(error.message()),
    }
}

/// What to do with the overlay window when it is toggled.
#[derive(Clone, Copy, Debug, PartialEq, Eq, Structural)]
pub enum OverlayAction {
    /// Hide the overlay.
    Hide,
    /// Show the overlay and give it the focus.
    ShowAndFocus,
}

/// Toggles the overlay: a visible overlay is hidden; one that is hidden, or
/// whose visibility is not known, is shown and focused.
pub fn toggle_overlay(visible: Option<bool>) -> (action: OverlayAction)
    ensures
        action == if visible == Some(true) {
            OverlayAction::Hide
        } else {
            OverlayAction::ShowAndFocus
        },
{
    match visible {
        Some(true) => OverlayAction::Hide,
        _ => OverlayAction::ShowAndFocus,
    }
}

} // verus!
