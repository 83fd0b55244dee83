//! The data the compositor reports, and the aggregated state built from it.

use std::collections::HashMap;
use vstd::prelude::*;
use vstd::std_specs::iter::IteratorSpec;

verus! {

broadcast use vstd::std_specs::hash::group_hash_axioms;

/// A workspace as the compositor reports it.
#[derive(Clone, Copy, Debug, PartialEq, Eq, Structural)]
pub struct Workspace {
    /// Identity; constant while the workspace exists.
    pub id: u64,
    /// Position of the workspace on its monitor.
    pub idx: u8,
    /// Whether the workspace is the visible one.
    pub is_active: bool,
    /// Whether the workspace holds the keyboard focus.
    pub is_focused: bool,
}

/// A toplevel window as the compositor reports it.
#[derive(Debug, PartialEq, Eq)]
pub struct Window {
    /// Identity; constant while the window is open.
    pub id: u64,
    /// The workspace the window is on, if any.
    pub workspace_id: Option<u64>,
    /// Whether the window holds the keyboard focus.
    pub is_focused: bool,
    /// Title, if set.
    pub title: Option<String>,
    /// Application identifier, if set.
    pub app_id: Option<String>,
}

/// Mathematical value of a [`Window`].
pub struct WindowView {
    pub id: u64,
    pub workspace_id: Option<u64>,
    pub is_focused: bool,
    pub title: Option<Seq<char>>,
    pub app_id: Option<Seq<char>>,
}

/// Mathematical value of an optional string.
pub open spec fn text_view(text: Option<String>) -> Option<Seq<char>> {
    match text {
        Some(s) => Some(s@),
        None => None,
    }
}

impl View for Window {
    type V = WindowView;

    open spec fn view(&self) -> WindowView {
        WindowView {
            id: self.id,
            workspace_id: self.workspace_id,
            is_focused: self.is_focused,
            title: text_view(self.title),
            app_id: text_view(self.app_id),
        }
    }
}

/// The values of a sequence of windows, in order.
pub open spec fn window_views(windows: Seq<Window>) -> Seq<WindowView> {
    windows.map_values(|w: Window| w@)
}

/// The values of a list once one more window is appended.
pub proof fn lemma_views_push(windows: Seq<Window>, window: Window)
    ensures
        window_views(windows.push(window)) == window_views(windows).push(window@),
{
    assert(window_views(windows.push(window)) =~= window_views(windows).push(window@));
}

fn clone_text(text: &Option<String>) -> (copy: Option<String>)
    ensures
        text_view(copy) == text_view(*text),
{
    match text {
        Some(s) => Some(s.clone()),
        None => None,
    }
}

impl Clone for Window {
    fn clone(&self) -> (copy: Self)
        ensures
            copy@ == self@,
    {
        Window {
            id: self.id,
            workspace_id: self.workspace_id,
            is_focused: self.is_focused,
            title: clone_text(&self.title),
            app_id: clone_text(&self.app_id),
        }
    }
}

/// Copies a list of windows.
pub fn clone_windows(windows: &Vec<Window>) -> (copy: Vec<Window>)
    ensures
        window_views(copy@) == window_views(windows@),
{
    let mut copy: Vec<Window> = Vec::new();
    let mut i: usize = 0;
    while i < windows.len()
        invariant
            i <= windows.len(),
            window_views(copy@) == window_views(windows@.take(i as int)),
        decreases windows.len() - i,
    {
        let ghost before = copy@;
        let window = windows[i].clone();
        copy.push(window);
        proof {
            assert(windows@.take(i + 1) == windows@.take(i as int).push(windows@[i as int]));
            lemma_views_push(before, window);
            lemma_views_push(windows@.take(i as int), windows@[i as int]);
        }
        i += 1;
    }
    proof {
        assert(windows@.take(i as int) == windows@);
    }
    copy
}

/// Copies a list of workspaces.
pub fn clone_workspaces(workspaces: &Vec<Workspace>) -> (copy: Vec<Workspace>)
    ensures
        copy@ == workspaces@,
{
    let mut copy: Vec<Workspace> = Vec::new();
    let mut i: usize = 0;
    while i < workspaces.len()
        invariant
            i <= workspaces.len(),
            copy@ == workspaces@.take(i as int),
        decreases workspaces.len() - i,
    {
        copy.push(workspaces[i]);
        proof {
            assert(workspaces@.take(i + 1) == workspaces@.take(i as int).push(workspaces@[i as int]));
        }
        i += 1;
    }
    proof {
        assert(workspaces@.take(i as int) == workspaces@);
    }
    copy
}

/// A change the compositor announces on its event stream.
#[allow(inconsistent_fields)]
#[derive(Debug, PartialEq, Eq)]
pub enum NiriEvent {
    /// The whole workspace list is replaced.
    WorkspacesChanged { workspaces: Vec<Workspace> },
    /// A workspace became the active one, and maybe the focused one.
    WorkspaceActivated { id: u64, focused: bool },
    /// The whole window list is replaced.
    WindowsChanged { windows: Vec<Window> },
    /// A window was opened, or an open window changed.
    WindowOpenedOrChanged { window: Window },
    /// A window was closed.
    WindowClosed { id: u64 },
    /// The focus moved to another window, or to none.
    WindowFocusChanged { id: Option<u64> },
    /// Any event that the state does not track.
    Other,
}

/// Mathematical value of a [`NiriEvent`].
#[allow(inconsistent_fields)]
pub enum NiriEventView {
    WorkspacesChanged { workspaces: Seq<Workspace> },
    WorkspaceActivated { id: u64, focused: bool },
    WindowsChanged { windows: Seq<WindowView> },
    WindowOpenedOrChanged { window: WindowView },
    WindowClosed { id: u64 },
    WindowFocusChanged { id: Option<u64> },
    Other,
}

impl View for NiriEvent {
    type V = NiriEventView;

    open spec fn view(&self) -> NiriEventView {
        match *self {
            NiriEvent::WorkspacesChanged { workspaces } => NiriEventView::WorkspacesChanged {
                workspaces: workspaces@,
            },
            NiriEvent::WorkspaceActivated { id, focused } => NiriEventView::WorkspaceActivated {
                id,
                focused,
            },
            NiriEvent::WindowsChanged { windows } => NiriEventView::WindowsChanged {
                windows: window_views(windows@),
            },
            NiriEvent::WindowOpenedOrChanged { window } => NiriEventView::WindowOpenedOrChanged {
                window: window@,
            },
            NiriEvent::WindowClosed { id } => NiriEventView::WindowClosed { id },
            NiriEvent::WindowFocusChanged { id } => NiriEventView::WindowFocusChanged { id },
            NiriEvent::Other => NiriEventView::Other,
        }
    }
}

impl Clone for NiriEvent {
    fn clone(&self) -> (copy: Self)
        ensures
            copy@ == self@,
    {
        match self {
            NiriEvent::WorkspacesChanged { workspaces } => NiriEvent::WorkspacesChanged {
                workspaces: clone_workspaces(workspaces),
            },
            NiriEvent::WorkspaceActivated { id, focused } => NiriEvent::WorkspaceActivated {
                id: *id,
                focused: *focused,
            },
            NiriEvent::WindowsChanged { windows } => NiriEvent::WindowsChanged {
                windows: clone_windows(windows),
            },
            NiriEvent::WindowOpenedOrChanged { window } => NiriEvent::WindowOpenedOrChanged {
                window: window.clone(),
            },
            NiriEvent::WindowClosed { id } => NiriEvent::WindowClosed { id: *id },
            NiriEvent::WindowFocusChanged { id } => NiriEvent::WindowFocusChanged { id: *id },
            NiriEvent::Other => NiriEvent::Other,
        }
    }
}

/// The aggregated state: the one picture of the compositor that readers see.
#[derive(Debug)]
pub struct NiriState {
    /// The workspaces, in the order the compositor listed them.
    pub workspaces: Vec<Workspace>,
    /// For each workspace id, the windows on it in arrival order. Windows on
    /// no workspace are kept under [`NO_WORKSPACE`].
    pub windows_by_workspace: HashMap<u64, Vec<Window>>,
    /// The focused window, if any.
    pub focused_window_id: Option<u64>,
    /// The focused workspace, if any.
    pub focused_workspace_id: Option<u64>,
}

/// The key under which windows that are on no workspace are kept.
pub const NO_WORKSPACE: u64 = 0;

/// Mathematical value of a [`NiriState`].
pub struct NiriStateView {
    pub workspaces: Seq<Workspace>,
    pub windows_by_workspace: Map<u64, Seq<WindowView>>,
    pub focused_window_id: Option<u64>,
    pub focused_workspace_id: Option<u64>,
}

/// The values of the window lists of a bucket map, key by key.
pub open spec fn bucket_views(buckets: Map<u64, Vec<Window>>) -> Map<u64, Seq<WindowView>> {
    buckets.map_values(|windows: Vec<Window>| window_views(windows@))
}

impl View for NiriState {
    type V = NiriStateView;

    open spec fn view(&self) -> NiriStateView {
        NiriStateView {
            workspaces: self.workspaces@,
            windows_by_workspace: bucket_views(self.windows_by_workspace@),
            focused_window_id: self.focused_window_id,
            focused_workspace_id: self.focused_workspace_id,
        }
    }
}

/// The state before any event has arrived.
pub open spec fn empty_state() -> NiriStateView {
    NiriStateView {
        workspaces: Seq::empty(),
        windows_by_workspace: Map::empty(),
        focused_window_id: None,
        focused_workspace_id: None,
    }
}

impl Default for NiriState {
    fn default() -> (state: Self)
        ensures
            state@ == empty_state(),
    {
        let state = NiriState {
            workspaces: Vec::new(),
            windows_by_workspace: HashMap::new(),
            focused_window_id: None,
            focused_workspace_id: None,
        };
        proof {
            assert(state@.windows_by_workspace =~= Map::empty());
        }
        state
    }
}

/// The keys of a bucket map, each once.
pub(crate) fn bucket_keys(buckets: &HashMap<u64, Vec<Window>>) -> (keys: Vec<u64>)
    ensures
        keys@.no_duplicates(),
        keys@.to_set() == buckets@.dom(),
{
    let mut keys: Vec<u64> = Vec::new();
    let ghost all = buckets.keys().remaining();
    for key in it: buckets.keys()
        invariant
            all == it.seq(),
            keys@ == it.seq().take(it.index() as int).unref(),
    {
        keys.push(*key);
    }
    proof {
        assert(keys@ == all.unref());
    }
    keys
}

impl Clone for NiriState {
    fn clone(&self) -> (copy: Self)
        ensures
            copy@ == self@,
    {
        let keys = bucket_keys(&self.windows_by_workspace);
        let mut buckets: HashMap<u64, Vec<Window>> = HashMap::new();
        let mut i: usize = 0;
        while i < keys.len()
            invariant
                i <= keys.len(),
                keys@.to_set() == self.windows_by_workspace@.dom(),
                forall|j: int| 0 <= j < i ==> buckets@.contains_key(#[trigger] keys@[j]),
                forall|k: u64| #[trigger]
                    buckets@.contains_key(k) ==> self.windows_by_workspace@.contains_key(k)
                        && window_views(buckets@[k]@) == window_views(
                        self.windows_by_workspace@[k]@,
                    ),
            decreases keys.len() - i,
        {
            let key = keys[i];
            let ghost held = buckets@;
            proof {
                assert(keys@.to_set().contains(keys@[i as int]));
                assert(self.windows_by_workspace@.contains_key(key));
            }
            match self.windows_by_workspace.get(&key) {
                Some(windows) => {
                    let copied = clone_windows(windows);
                    buckets.insert(key, copied);
                    proof {
                        assert(buckets@ == held.insert(key, copied));
                        assert forall|j: int| 0 <= j < i + 1 implies buckets@.contains_key(
                            #[trigger] keys@[j],
                        ) by {
                            if j < i {
                                assert(held.contains_key(keys@[j]));
                            }
                        }
                    }
                },
                None => {},
            }
            i += 1;
        }
        let copy = NiriState {
            workspaces: clone_workspaces(&self.workspaces),
            windows_by_workspace: buckets,
            focused_window_id: self.focused_window_id,
            focused_workspace_id: self.focused_workspace_id,
        };
        proof {
            assert forall|k: u64| self.windows_by_workspace@.contains_key(k) implies buckets@.contains_key(
                k,
            ) by {
                assert(keys@.to_set().contains(k));
                let j = choose|j: int| 0 <= j < keys@.len() && keys@[j] == k;
                assert(buckets@.contains_key(keys@[j]));
            }
            assert(copy@.windows_by_workspace.dom() =~= self@.windows_by_workspace.dom());
            assert forall|k: u64| copy@.windows_by_workspace.contains_key(k) implies (
            #[trigger] copy@.windows_by_workspace[k]) == self@.windows_by_workspace[k] by {
                assert(buckets@.contains_key(k));
            }
            assert(copy@.windows_by_workspace =~= self@.windows_by_workspace);
        }
        copy
    }
}

} // verus!
