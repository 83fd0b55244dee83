use niri_switch::{NiriEvent, NiriState, Window, Workspace};

fn workspace(id: u64, focused: bool) -> Workspace {
    Workspace { id, idx: id as u8, is_active: focused, is_focused: focused }
}

fn window(id: u64, workspace_id: Option<u64>, focused: bool) -> Window {
    Window { id, workspace_id, is_focused: focused, title: None, app_id: None }
}

fn titled(id: u64, workspace_id: Option<u64>, title: &str) -> Window {
    Window {
        id,
        workspace_id,
        is_focused: false,
        title: Some(title.to_string()),
        app_id: Some(format!("app.{title}")),
    }
}

fn ids(state: &NiriState, key: u64) -> Option<Vec<u64>> {
    state.windows_by_workspace.get(&key).map(|ws| ws.iter().map(|w| w.id).collect())
}

fn occurrences(state: &NiriState, id: u64) -> usize {
    state.windows_by_workspace.values().map(|ws| ws.iter().filter(|w| w.id == id).count()).sum()
}

fn folded(events: Vec<NiriEvent>) -> NiriState {
    let mut state = NiriState::default();
    for event in &events {
        state.apply_event(event);
    }
    state
}

#[test]
fn default_state_is_empty() {
    let state = NiriState::default();
    assert!(state.workspaces.is_empty());
    assert!(state.windows_by_workspace.is_empty());
    assert_eq!(state.focused_window_id, None);
    assert_eq!(state.focused_workspace_id, None);
}

#[test]
fn end_to_end_sequence_keeps_the_closed_focus() {
    let mut state = NiriState::default();
    state.apply_event(&NiriEvent::WorkspacesChanged {
        workspaces: vec![workspace(1, true), workspace(2, false)],
    });
    state.apply_event(&NiriEvent::WindowsChanged { windows: vec![window(10, Some(1), true)] });
    state.apply_event(&NiriEvent::WindowOpenedOrChanged { window: window(11, Some(2), false) });
    state.apply_event(&NiriEvent::WindowClosed { id: 10 });

    assert_eq!(state.focused_workspace_id, Some(1));
    assert_eq!(state.workspaces, vec![workspace(1, true), workspace(2, false)]);
    assert_eq!(ids(&state, 1), Some(vec![]));
    assert_eq!(state.windows_by_workspace.get(&2), Some(&vec![window(11, Some(2), false)]));
    assert_eq!(state.windows_by_workspace.len(), 2);
    assert_eq!(state.focused_window_id, Some(10));
}

#[test]
fn workspaces_replaced_takes_the_first_focused_workspace() {
    let state = folded(vec![NiriEvent::WorkspacesChanged {
        workspaces: vec![workspace(4, false), workspace(7, true), workspace(9, true)],
    }]);
    assert_eq!(state.focused_workspace_id, Some(7));
    assert_eq!(state.workspaces.len(), 3);
}

#[test]
fn workspaces_replaced_without_focus_unsets_the_focused_workspace() {
    let state = folded(vec![
        NiriEvent::WorkspacesChanged { workspaces: vec![workspace(1, true)] },
        NiriEvent::WorkspacesChanged { workspaces: vec![workspace(1, false), workspace(2, false)] },
    ]);
    assert_eq!(state.focused_workspace_id, None);
    assert_eq!(state.workspaces, vec![workspace(1, false), workspace(2, false)]);
}

#[test]
fn workspaces_replaced_leaves_the_windows() {
    let state = folded(vec![
        NiriEvent::WindowsChanged { windows: vec![window(10, Some(1), true)] },
        NiriEvent::WorkspacesChanged { workspaces: vec![workspace(3, true)] },
    ]);
    assert_eq!(ids(&state, 1), Some(vec![10]));
    assert_eq!(state.focused_window_id, Some(10));
}

#[test]
fn workspace_activated_with_focus_moves_both_flags() {
    let state = folded(vec![
        NiriEvent::WorkspacesChanged {
            workspaces: vec![workspace(1, true), workspace(2, false), workspace(3, false)],
        },
        NiriEvent::WorkspaceActivated { id: 2, focused: true },
    ]);
    let flags: Vec<(u64, bool, bool)> =
        state.workspaces.iter().map(|w| (w.id, w.is_active, w.is_focused)).collect();
    assert_eq!(flags, vec![(1, false, false), (2, true, true), (3, false, false)]);
    assert_eq!(state.focused_workspace_id, Some(2));
}

#[test]
fn workspace_activated_without_focus_moves_only_the_active_flag() {
    let state = folded(vec![
        NiriEvent::WorkspacesChanged {
            workspaces: vec![workspace(1, true), workspace(2, false)],
        },
        NiriEvent::WorkspaceActivated { id: 2, focused: false },
    ]);
    let flags: Vec<(u64, bool, bool)> =
        state.workspaces.iter().map(|w| (w.id, w.is_active, w.is_focused)).collect();
    assert_eq!(flags, vec![(1, false, true), (2, true, false)]);
    assert_eq!(state.focused_workspace_id, Some(1));
}

#[test]
fn workspace_activated_for_an_unknown_workspace_deactivates_all() {
    let state = folded(vec![
        NiriEvent::WorkspacesChanged { workspaces: vec![workspace(1, true)] },
        NiriEvent::WorkspaceActivated { id: 9, focused: true },
    ]);
    assert_eq!(state.workspaces, vec![Workspace { id: 1, idx: 1, is_active: false, is_focused: false }]);
    assert_eq!(state.focused_workspace_id, Some(9));
}

#[test]
fn windows_replaced_buckets_by_workspace_in_list_order() {
    let state = folded(vec![NiriEvent::WindowsChanged {
        windows: vec![
            window(1, Some(5), false),
            window(2, None, false),
            window(3, Some(5), true),
            window(4, Some(6), true),
            window(5, None, false),
        ],
    }]);
    assert_eq!(ids(&state, 5), Some(vec![1, 3]));
    assert_eq!(ids(&state, 6), Some(vec![4]));
    assert_eq!(ids(&state, 0), Some(vec![2, 5]));
    assert_eq!(state.windows_by_workspace.len(), 3);
    assert_eq!(state.focused_window_id, Some(3));
}

#[test]
fn windows_replaced_clears_the_buckets_that_were_there() {
    let state = folded(vec![
        NiriEvent::WindowsChanged { windows: vec![window(1, Some(5), true), window(2, Some(6), false)] },
        NiriEvent::WindowsChanged { windows: vec![window(3, Some(7), false)] },
    ]);
    assert_eq!(ids(&state, 5), None);
    assert_eq!(ids(&state, 6), None);
    assert_eq!(ids(&state, 7), Some(vec![3]));
    assert_eq!(state.focused_window_id, None);
}

#[test]
fn windows_replaced_twice_is_windows_replaced_once() {
    let list = || vec![titled(1, Some(5), "a"), window(2, None, true), titled(3, Some(5), "c")];
    let mut once = NiriState::default();
    once.apply_event(&NiriEvent::WindowOpenedOrChanged { window: window(9, Some(4), false) });
    once.apply_event(&NiriEvent::WindowsChanged { windows: list() });
    let mut twice = once.clone();
    twice.apply_event(&NiriEvent::WindowsChanged { windows: list() });

    assert_eq!(twice.windows_by_workspace, once.windows_by_workspace);
    assert_eq!(twice.focused_window_id, once.focused_window_id);
    assert_eq!(twice.focused_workspace_id, once.focused_workspace_id);
    assert_eq!(twice.workspaces, once.workspaces);
    assert_eq!(ids(&twice, 5), Some(vec![1, 3]));
    assert_eq!(twice.focused_window_id, Some(2));
}

#[test]
fn opened_window_lands_in_a_new_bucket() {
    let state = folded(vec![NiriEvent::WindowOpenedOrChanged { window: titled(8, Some(3), "term") }]);
    assert_eq!(state.windows_by_workspace.get(&3), Some(&vec![titled(8, Some(3), "term")]));
    assert_eq!(state.focused_window_id, None);
}

#[test]
fn opened_window_without_workspace_lands_under_the_sentinel() {
    let state = folded(vec![NiriEvent::WindowOpenedOrChanged { window: window(8, None, false) }]);
    assert_eq!(ids(&state, niri_switch::types::NO_WORKSPACE), Some(vec![8]));
    assert_eq!(niri_switch::types::NO_WORKSPACE, 0);
}

#[test]
fn changed_window_moves_between_buckets() {
    let state = folded(vec![
        NiriEvent::WindowsChanged {
            windows: vec![window(1, Some(5), false), window(2, Some(5), false)],
        },
        NiriEvent::WindowOpenedOrChanged { window: window(1, Some(6), false) },
    ]);
    assert_eq!(ids(&state, 5), Some(vec![2]));
    assert_eq!(ids(&state, 6), Some(vec![1]));
    assert_eq!(occurrences(&state, 1), 1);
}

#[test]
fn changed_window_in_place_goes_to_the_end_of_its_bucket() {
    let state = folded(vec![
        NiriEvent::WindowsChanged {
            windows: vec![window(1, Some(5), false), window(2, Some(5), false)],
        },
        NiriEvent::WindowOpenedOrChanged { window: titled(1, Some(5), "new title") },
    ]);
    assert_eq!(
        state.windows_by_workspace.get(&5),
        Some(&vec![window(2, Some(5), false), titled(1, Some(5), "new title")])
    );
}

#[test]
fn opened_focused_window_does_not_move_the_focus() {
    let state = folded(vec![
        NiriEvent::WindowsChanged { windows: vec![window(1, Some(5), true)] },
        NiriEvent::WindowOpenedOrChanged { window: window(2, Some(5), true) },
    ]);
    assert_eq!(state.focused_window_id, Some(1));
    assert_eq!(
        state.windows_by_workspace.get(&5),
        Some(&vec![window(1, Some(5), true), window(2, Some(5), true)])
    );
}

#[test]
fn no_window_is_kept_twice_after_upserts() {
    let state = folded(vec![
        NiriEvent::WindowOpenedOrChanged { window: window(1, Some(5), false) },
        NiriEvent::WindowOpenedOrChanged { window: window(2, Some(5), false) },
        NiriEvent::WindowOpenedOrChanged { window: window(1, Some(6), false) },
        NiriEvent::WindowOpenedOrChanged { window: window(2, None, false) },
        NiriEvent::WindowOpenedOrChanged { window: window(1, Some(5), false) },
        NiriEvent::WindowOpenedOrChanged { window: window(1, Some(5), true) },
    ]);
    assert_eq!(occurrences(&state, 1), 1);
    assert_eq!(occurrences(&state, 2), 1);
    assert_eq!(ids(&state, 5), Some(vec![1]));
    assert_eq!(ids(&state, 6), Some(vec![]));
    assert_eq!(ids(&state, 0), Some(vec![2]));
}

#[test]
fn upsert_repairs_a_window_that_was_listed_twice() {
    let state = folded(vec![
        NiriEvent::WindowsChanged {
            windows: vec![window(1, Some(5), false), window(1, Some(6), false)],
        },
        NiriEvent::WindowOpenedOrChanged { window: window(1, Some(7), false) },
    ]);
    assert_eq!(occurrences(&state, 1), 1);
    assert_eq!(ids(&state, 7), Some(vec![1]));
}

#[test]
fn closed_window_leaves_every_bucket() {
    let state = folded(vec![
        NiriEvent::WindowsChanged {
            windows: vec![
                window(1, Some(5), false),
                window(2, Some(5), false),
                window(1, Some(6), false),
            ],
        },
        NiriEvent::WindowClosed { id: 1 },
    ]);
    assert_eq!(ids(&state, 5), Some(vec![2]));
    assert_eq!(ids(&state, 6), Some(vec![]));
    assert_eq!(occurrences(&state, 1), 0);
}

#[test]
fn closing_an_unknown_window_changes_nothing() {
    let mut state = folded(vec![NiriEvent::WindowsChanged {
        windows: vec![window(1, Some(5), true)],
    }]);
    let before = state.clone();
    state.apply_event(&NiriEvent::WindowClosed { id: 99 });
    assert_eq!(state.windows_by_workspace, before.windows_by_workspace);
    assert_eq!(state.focused_window_id, Some(1));
}

#[test]
fn focus_change_marks_exactly_the_focused_window() {
    let state = folded(vec![
        NiriEvent::WindowsChanged {
            windows: vec![
                window(1, Some(5), true),
                window(2, Some(5), false),
                window(3, Some(6), true),
            ],
        },
        NiriEvent::WindowFocusChanged { id: Some(2) },
    ]);
    assert_eq!(state.focused_window_id, Some(2));
    let focused: Vec<u64> = state
        .windows_by_workspace
        .values()
        .flat_map(|ws| ws.iter())
        .filter(|w| w.is_focused)
        .map(|w| w.id)
        .collect();
    assert_eq!(focused, vec![2]);
    assert_eq!(ids(&state, 5), Some(vec![1, 2]));
    assert_eq!(ids(&state, 6), Some(vec![3]));
}

#[test]
fn focus_change_to_none_clears_every_flag() {
    let state = folded(vec![
        NiriEvent::WindowsChanged {
            windows: vec![window(1, Some(5), true), window(2, None, true)],
        },
        NiriEvent::WindowFocusChanged { id: None },
    ]);
    assert_eq!(state.focused_window_id, None);
    assert!(state.windows_by_workspace.values().all(|ws| ws.iter().all(|w| !w.is_focused)));
}

#[test]
fn focus_change_to_an_absent_window_is_recorded() {
    let state = folded(vec![
        NiriEvent::WindowsChanged { windows: vec![window(1, Some(5), true)] },
        NiriEvent::WindowFocusChanged { id: Some(42) },
    ]);
    assert_eq!(state.focused_window_id, Some(42));
    assert_eq!(state.windows_by_workspace.get(&5), Some(&vec![window(1, Some(5), false)]));
}

#[test]
fn focus_change_keeps_titles() {
    let state = folded(vec![
        NiriEvent::WindowOpenedOrChanged { window: titled(1, Some(5), "editor") },
        NiriEvent::WindowFocusChanged { id: Some(1) },
    ]);
    let mut expected = titled(1, Some(5), "editor");
    expected.is_focused = true;
    assert_eq!(state.windows_by_workspace.get(&5), Some(&vec![expected]));
}

#[test]
fn later_event_wins_close_after_open() {
    let state = folded(vec![
        NiriEvent::WindowOpenedOrChanged { window: window(1, Some(5), false) },
        NiriEvent::WindowClosed { id: 1 },
    ]);
    assert_eq!(occurrences(&state, 1), 0);
}

#[test]
fn later_event_wins_open_after_close() {
    let state = folded(vec![
        NiriEvent::WindowsChanged { windows: vec![window(1, Some(5), false)] },
        NiriEvent::WindowClosed { id: 1 },
        NiriEvent::WindowOpenedOrChanged { window: titled(1, Some(6), "back") },
    ]);
    assert_eq!(occurrences(&state, 1), 1);
    assert_eq!(state.windows_by_workspace.get(&6), Some(&vec![titled(1, Some(6), "back")]));
}

#[test]
fn later_event_wins_open_after_open() {
    let state = folded(vec![
        NiriEvent::WindowOpenedOrChanged { window: titled(1, Some(5), "first") },
        NiriEvent::WindowOpenedOrChanged { window: titled(1, Some(5), "second") },
    ]);
    assert_eq!(state.windows_by_workspace.get(&5), Some(&vec![titled(1, Some(5), "second")]));
}

#[test]
fn later_event_wins_focus_after_focus() {
    let state = folded(vec![
        NiriEvent::WindowsChanged {
            windows: vec![window(1, Some(5), false), window(2, Some(5), false)],
        },
        NiriEvent::WindowFocusChanged { id: Some(1) },
        NiriEvent::WindowFocusChanged { id: Some(2) },
    ]);
    assert_eq!(state.focused_window_id, Some(2));
    assert_eq!(
        state.windows_by_workspace.get(&5),
        Some(&vec![window(1, Some(5), false), window(2, Some(5), true)])
    );
}

#[test]
fn other_events_change_nothing() {
    let mut state = folded(vec![
        NiriEvent::WorkspacesChanged { workspaces: vec![workspace(1, true)] },
        NiriEvent::WindowsChanged { windows: vec![window(1, Some(1), true)] },
    ]);
    let before = state.clone();
    state.apply_event(&NiriEvent::Other);
    assert_eq!(state.workspaces, before.workspaces);
    assert_eq!(state.windows_by_workspace, before.windows_by_workspace);
    assert_eq!(state.focused_window_id, before.focused_window_id);
    assert_eq!(state.focused_workspace_id, before.focused_workspace_id);
}

#[test]
fn same_events_give_the_same_state() {
    let events = || {
        vec![
            NiriEvent::WorkspacesChanged { workspaces: vec![workspace(1, true), workspace(2, false)] },
            NiriEvent::WindowsChanged { windows: vec![window(10, Some(1), true)] },
            NiriEvent::WindowOpenedOrChanged { window: titled(11, Some(2), "x") },
            NiriEvent::WindowFocusChanged { id: Some(11) },
            NiriEvent::WorkspaceActivated { id: 2, focused: true },
        ]
    };
    let a = folded(events());
    let b = folded(events());
    assert_eq!(a.workspaces, b.workspaces);
    assert_eq!(a.windows_by_workspace, b.windows_by_workspace);
    assert_eq!(a.focused_window_id, b.focused_window_id);
    assert_eq!(a.focused_workspace_id, b.focused_workspace_id);
    assert_eq!(a.focused_window_id, Some(11));
    assert_eq!(a.focused_workspace_id, Some(2));
}

#[test]
fn cloned_state_is_equal_and_independent() {
    let mut state = folded(vec![NiriEvent::WindowsChanged {
        windows: vec![titled(1, Some(5), "a"), titled(2, None, "b")],
    }]);
    let copy = state.clone();
    state.apply_event(&NiriEvent::WindowClosed { id: 1 });
    assert_eq!(ids(&copy, 5), Some(vec![1]));
    assert_eq!(ids(&state, 5), Some(vec![]));
    assert_eq!(copy.windows_by_workspace.get(&0), Some(&vec![titled(2, None, "b")]));
}

#[test]
fn cloned_event_is_equal() {
    let event = NiriEvent::WindowsChanged { windows: vec![titled(1, Some(5), "a")] };
    assert_eq!(event.clone(), event);
    let event = NiriEvent::WorkspacesChanged { workspaces: vec![workspace(1, true)] };
    assert_eq!(event.clone(), event);
}

#[test]
fn total_windows_counts_every_bucket() {
    assert_eq!(NiriState::default().total_windows(), 0);
    let state = folded(vec![NiriEvent::WindowsChanged {
        windows: vec![
            window(1, Some(5), false),
            window(2, None, false),
            window(3, Some(5), true),
            window(4, Some(6), true),
        ],
    }]);
    assert_eq!(state.total_windows(), 4);
    let state = folded(vec![
        NiriEvent::WindowOpenedOrChanged { window: window(1, Some(5), false) },
        NiriEvent::WindowClosed { id: 1 },
    ]);
    assert_eq!(state.total_windows(), 0);
    assert_eq!(state.windows_by_workspace.len(), 1);
}
