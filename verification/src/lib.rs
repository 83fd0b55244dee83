//! Synchronisation core of a client for the niri compositor's IPC socket.
//!
//! The crate keeps a live snapshot of the compositor's workspaces and windows
//! by folding the compositor's event stream into a [`NiriState`], and holds
//! the decisions of the pieces around that fold: the wire framing, the event
//! stream session, the reconnection supervisor and the event fanout. It does
//! no I/O itself: a caller connects, reads, writes and sleeps as
//! [`NiriClient::run_event_stream`] tells it, and hands back what came of it.
//!
//! Beside the core stand the small rules of the application around it: where
//! the sockets are, and where an application's icon is looked for.

pub mod client;
pub mod commands;
pub mod count;
pub mod error;
pub mod fanout;
pub mod icons;
pub mod laws;
pub mod paths;
pub mod reducer;
pub mod session;
pub mod supervisor;
pub mod text;
pub mod types;
pub mod wire;

pub use client::{NiriClient, StreamAction, StreamInput};
pub use commands::{
    close_window, focus_window, focus_workspace, get_state, move_window_to_workspace,
    toggle_overlay, AppState,
};
pub use error::NiriError;
pub use icons::{debug_icon_search, get_app_icon};
pub use paths::socket_path;
pub use types::{NiriEvent, NiriEventView, NiriState, NiriStateView, Window, WindowView, Workspace};
pub use wire::NiriRequest;
