//! What holds of the reducer on every state and every event.

use crate::reducer::{
    bucket, bucket_of, bucketed, focused_window, is_not, lemma_filter_push, reduce, refocus,
    refocused, with_focus, with_window, without_window,
};
use crate::types::{empty_state, NiriEventView, NiriStateView, WindowView};
use vstd::prelude::*;

verus! {

/// The state after a run of events, folded in arrival order.
pub open spec fn apply_all(state: NiriStateView, events: Seq<NiriEventView>) -> NiriStateView
    decreases events.len(),
{
    if events.len() == 0 {
        state
    } else {
        reduce(apply_all(state, events.drop_last()), events.last())
    }
}

/// Holds of the window with identity `id`.
pub open spec fn has_id(id: u64) -> spec_fn(WindowView) -> bool {
    |w: WindowView| w.id == id
}

/// How many entries of the list are for window `id`.
pub open spec fn copies(windows: Seq<WindowView>, id: u64) -> nat {
    windows.filter(has_id(id)).len()
}

/// Window `id` is kept in no bucket.
pub open spec fn absent(buckets: Map<u64, Seq<WindowView>>, id: u64) -> bool {
    forall|key: u64| buckets.contains_key(key) ==> copies(#[trigger] buckets[key], id) == 0
}

/// Window `id` is kept in at most one bucket, and at most once there.
pub open spec fn kept_at_most_once(buckets: Map<u64, Seq<WindowView>>, id: u64) -> bool {
    &&& forall|key: u64| buckets.contains_key(key) ==> copies(#[trigger] buckets[key], id) <= 1
    &&& forall|a: u64, b: u64|
        buckets.contains_key(a) && buckets.contains_key(b) && copies(#[trigger] buckets[a], id) > 0
            && copies(#[trigger] buckets[b], id) > 0 ==> a == b
}

/// Window `id` is kept exactly once: as `window`, at the end of the bucket
/// that `window` lies in.
pub open spec fn kept_only_as(buckets: Map<u64, Seq<WindowView>>, window: WindowView) -> bool {
    &&& buckets.contains_key(bucket_of(window))
    &&& buckets[bucket_of(window)].len() > 0
    &&& buckets[bucket_of(window)].last() == window
    &&& copies(buckets[bucket_of(window)], window.id) == 1
    &&& forall|key: u64|
        buckets.contains_key(key) && key != bucket_of(window) ==> copies(
            #[trigger] buckets[key],
            window.id,
        ) == 0
}

/// Every window that is kept has its focused flag set iff it is window `id`.
pub open spec fn focus_is_on(buckets: Map<u64, Seq<WindowView>>, id: Option<u64>) -> bool {
    forall|key: u64, i: int|
        buckets.contains_key(key) && 0 <= i < buckets[key].len() ==> ((
        #[trigger] buckets[key][i]).is_focused <==> Some(buckets[key][i].id) == id)
}

/// Whether `event` is one that changes what is known of window `id`.
pub open spec fn affects_window(event: NiriEventView, id: u64) -> bool {
    match event {
        NiriEventView::WindowsChanged { windows } => true,
        NiriEventView::WindowOpenedOrChanged { window } => window.id == id,
        NiriEventView::WindowClosed { id: closed } => closed == id,
        NiriEventView::WindowFocusChanged { id: focus } => true,
        _ => false,
    }
}

/// What `state` shows where `event` was the last to change what is known
/// of a window.
pub open spec fn reflects(state: NiriStateView, event: NiriEventView) -> bool {
    match event {
        NiriEventView::WindowsChanged { windows } => {
            &&& state.windows_by_workspace == bucketed(windows)
            &&& state.focused_window_id == focused_window(windows)
        },
        NiriEventView::WindowOpenedOrChanged { window } => kept_only_as(
            state.windows_by_workspace,
            window,
        ),
        NiriEventView::WindowClosed { id } => absent(state.windows_by_workspace, id),
        NiriEventView::WindowFocusChanged { id } => {
            &&& state.focused_window_id == id
            &&& focus_is_on(state.windows_by_workspace, id)
        },
        _ => true,
    }
}

/// Whether every event of the run announces an opened or changed window.
pub open spec fn only_opened_or_changed(events: Seq<NiriEventView>) -> bool {
    forall|i: int| 0 <= i < events.len() ==> (#[trigger] events[i]) is WindowOpenedOrChanged
}

/// Whether `event` announces window `id` as opened or changed.
pub open spec fn opens_or_changes(event: NiriEventView, id: u64) -> bool {
    match event {
        NiriEventView::WindowOpenedOrChanged { window } => window.id == id,
        _ => false,
    }
}

/// Whether some event of the run announces window `id` as opened or changed.
pub open spec fn announces(events: Seq<NiriEventView>, id: u64) -> bool {
    exists|i: int| 0 <= i < events.len() && opens_or_changes(#[trigger] events[i], id)
}

/// Replacing the window list twice with the same list gives the state that
/// replacing it once gives.
pub proof fn lemma_windows_replaced_idempotent(state: NiriStateView, windows: Seq<WindowView>)
    ensures
        ({
            let event = NiriEventView::WindowsChanged { windows };
            reduce(reduce(state, event), event) == reduce(state, event)
        }),
{
}

/// Replacing the workspace list twice with the same list gives the state
/// that replacing it once gives.
pub proof fn lemma_workspaces_replaced_idempotent(
    state: NiriStateView,
    workspaces: Seq<crate::types::Workspace>,
)
    ensures
        ({
            let event = NiriEventView::WorkspacesChanged { workspaces };
            reduce(reduce(state, event), event) == reduce(state, event)
        }),
{
}

/// Removing window `removed` from a list removes all its copies and leaves
/// the number of copies of every other window as it was.
pub proof fn lemma_copies_after_removal(windows: Seq<WindowView>, removed: u64, id: u64)
    ensures
        copies(windows.filter(is_not(removed)), id) == if id == removed {
            0
        } else {
            copies(windows, id)
        },
    decreases windows.len(),
{
    reveal(Seq::filter);
    if windows.len() > 0 {
        let front = windows.drop_last();
        let last = windows.last();
        assert(windows == front.push(last));
        lemma_copies_after_removal(front, removed, id);
        lemma_filter_push(front, last, is_not(removed));
        lemma_filter_push(front, last, has_id(id));
        lemma_filter_push(front.filter(is_not(removed)), last, has_id(id));
    }
}

/// Appending a window adds one copy of that window and none of any other.
pub proof fn lemma_copies_after_push(windows: Seq<WindowView>, last: WindowView, id: u64)
    ensures
        copies(windows.push(last), id) == copies(windows, id) + if last.id == id {
            1nat
        } else {
            0nat
        },
{
    lemma_filter_push(windows, last, has_id(id));
}

/// Moving the focus changes no window's identity, so no count of copies.
pub proof fn lemma_copies_after_refocus(windows: Seq<WindowView>, focus: Option<u64>, id: u64)
    ensures
        copies(refocus(windows, focus), id) == copies(windows, id),
    decreases windows.len(),
{
    reveal(Seq::filter);
    if windows.len() > 0 {
        let front = windows.drop_last();
        let last = windows.last();
        assert(windows == front.push(last));
        assert(refocus(windows, focus) =~= refocus(front, focus).push(refocused(last, focus)));
        lemma_copies_after_refocus(front, focus, id);
        lemma_filter_push(front, last, has_id(id));
        lemma_filter_push(refocus(front, focus), refocused(last, focus), has_id(id));
    } else {
        assert(refocus(windows, focus) =~= windows);
    }
}

/// After a window-closed event the window is kept nowhere, whatever the
/// state before held.
pub proof fn lemma_closed_window_is_absent(buckets: Map<u64, Seq<WindowView>>, id: u64)
    ensures
        absent(without_window(buckets, id), id),
{
    let cleaned = without_window(buckets, id);
    assert forall|key: u64| cleaned.contains_key(key) implies copies(#[trigger] cleaned[key], id)
        == 0 by {
        lemma_copies_after_removal(buckets[key], id, id);
    }
}

/// After a window-opened-or-changed event the window is kept exactly once,
/// as the event gave it, whatever the state before held.
pub proof fn lemma_upsert_keeps_one_copy(buckets: Map<u64, Seq<WindowView>>, window: WindowView)
    ensures
        kept_only_as(with_window(without_window(buckets, window.id), window), window),
{
    let cleaned = without_window(buckets, window.id);
    let target = bucket_of(window);
    let updated = with_window(cleaned, window);
    lemma_closed_window_is_absent(buckets, window.id);
    reveal(Seq::filter);
    assert(copies(Seq::<WindowView>::empty(), window.id) == 0);
    assert(copies(bucket(cleaned, target), window.id) == 0);
    lemma_copies_after_push(bucket(cleaned, target), window, window.id);
    assert forall|key: u64| updated.contains_key(key) && key != target implies copies(
        #[trigger] updated[key],
        window.id,
    ) == 0 by {
        assert(cleaned.contains_key(key));
        assert(updated[key] == cleaned[key]);
    }
}

/// A window-opened-or-changed event leaves the copies of every other window
/// where they were.
pub proof fn lemma_upsert_keeps_other_counts(
    buckets: Map<u64, Seq<WindowView>>,
    window: WindowView,
    id: u64,
)
    requires
        id != window.id,
    ensures
        ({
            let updated = with_window(without_window(buckets, window.id), window);
            &&& forall|key: u64|
                buckets.contains_key(key) ==> updated.contains_key(key) && copies(
                    #[trigger] updated[key],
                    id,
                ) == copies(buckets[key], id)
            &&& forall|key: u64|
                updated.contains_key(key) && !buckets.contains_key(key) ==> copies(
                    #[trigger] updated[key],
                    id,
                ) == 0
        }),
{
    let cleaned = without_window(buckets, window.id);
    let target = bucket_of(window);
    let updated = with_window(cleaned, window);
    reveal(Seq::filter);
    assert(copies(Seq::<WindowView>::empty(), id) == 0);
    lemma_copies_after_push(bucket(cleaned, target), window, id);
    assert forall|key: u64| buckets.contains_key(key) implies updated.contains_key(key) && copies(
        #[trigger] updated[key],
        id,
    ) == copies(buckets[key], id) by {
        lemma_copies_after_removal(buckets[key], window.id, id);
    }
}

/// A window-opened-or-changed event keeps a window that was kept at most
/// once kept at most once.
pub proof fn lemma_upsert_preserves_uniqueness(
    buckets: Map<u64, Seq<WindowView>>,
    window: WindowView,
    id: u64,
)
    requires
        id == window.id || kept_at_most_once(buckets, id),
    ensures
        kept_at_most_once(with_window(without_window(buckets, window.id), window), id),
{
    let updated = with_window(without_window(buckets, window.id), window);
    if id == window.id {
        lemma_upsert_keeps_one_copy(buckets, window);
    } else {
        lemma_upsert_keeps_other_counts(buckets, window, id);
        assert forall|a: u64, b: u64|
            updated.contains_key(a) && updated.contains_key(b) && copies(
                #[trigger] updated[a],
                id,
            ) > 0 && copies(#[trigger] updated[b], id) > 0 implies a == b by {
            assert(buckets.contains_key(a));
            assert(buckets.contains_key(b));
            assert(copies(buckets[a], id) > 0);
            assert(copies(buckets[b], id) > 0);
        }
    }
}

/// After any run of window-opened-or-changed events, a window is kept in at
/// most one bucket, and once there, if the run announced it or the state
/// before the run kept it at most once.
pub proof fn lemma_uniqueness_after_upserts(
    state: NiriStateView,
    events: Seq<NiriEventView>,
    id: u64,
)
    requires
        only_opened_or_changed(events),
        announces(events, id) || kept_at_most_once(state.windows_by_workspace, id),
    ensures
        kept_at_most_once(apply_all(state, events).windows_by_workspace, id),
    decreases events.len(),
{
    if events.len() > 0 {
        let front = events.drop_last();
        let before = apply_all(state, front);
        match events.last() {
            NiriEventView::WindowOpenedOrChanged { window } => {
                if window.id != id {
                    if announces(events, id) {
                        let i = choose|i: int|
                            0 <= i < events.len() && opens_or_changes(#[trigger] events[i], id);
                        assert(i < front.len());
                        assert(front[i] == events[i]);
                        assert(announces(front, id));
                    }
                    lemma_uniqueness_after_upserts(state, front, id);
                }
                lemma_upsert_preserves_uniqueness(before.windows_by_workspace, window, id);
            },
            _ => {
                assert(events[events.len() - 1] is WindowOpenedOrChanged);
            },
        }
    } else {
        assert(!announces(events, id));
    }
}

/// Starting from the empty state, after any run of window-opened-or-changed
/// events no window is kept in more than one bucket, nor twice in one.
pub proof fn lemma_uniqueness_from_empty(events: Seq<NiriEventView>, id: u64)
    requires
        only_opened_or_changed(events),
    ensures
        kept_at_most_once(apply_all(empty_state(), events).windows_by_workspace, id),
{
    lemma_uniqueness_after_upserts(empty_state(), events, id);
}

/// After a window-focus-changed event the focused flag is set on exactly
/// the kept windows with the event's identity, the state names that identity
/// as the focused window, and nothing else of any window has changed.
pub proof fn lemma_focus_consistency(state: NiriStateView, id: Option<u64>)
    ensures
        ({
            let after = reduce(state, NiriEventView::WindowFocusChanged { id });
            &&& after.focused_window_id == id
            &&& focus_is_on(after.windows_by_workspace, id)
            &&& after.windows_by_workspace.dom() == state.windows_by_workspace.dom()
            &&& forall|key: u64|
                state.windows_by_workspace.contains_key(key) ==> (
                #[trigger] after.windows_by_workspace[key]).len()
                    == state.windows_by_workspace[key].len()
            &&& forall|key: u64, i: int|
                state.windows_by_workspace.contains_key(key) && 0 <= i
                    < state.windows_by_workspace[key].len() ==> (
                #[trigger] after.windows_by_workspace[key][i]) == refocused(
                    state.windows_by_workspace[key][i],
                    id,
                )
        }),
{
    let after = reduce(state, NiriEventView::WindowFocusChanged { id });
    assert(after.windows_by_workspace == with_focus(state.windows_by_workspace, id));
    assert(after.windows_by_workspace.dom() =~= state.windows_by_workspace.dom());
}

/// Every event but a replacement of the whole window list keeps a window
/// that was kept at most once kept at most once.
pub proof fn lemma_reduce_preserves_uniqueness(state: NiriStateView, event: NiriEventView, id: u64)
    requires
        !(event is WindowsChanged),
        kept_at_most_once(state.windows_by_workspace, id),
    ensures
        kept_at_most_once(reduce(state, event).windows_by_workspace, id),
{
    let before = state.windows_by_workspace;
    let after = reduce(state, event).windows_by_workspace;
    match event {
        NiriEventView::WindowOpenedOrChanged { window } => {
            lemma_upsert_preserves_uniqueness(before, window, id);
        },
        NiriEventView::WindowClosed { id: closed } => {
            assert forall|key: u64| before.contains_key(key) implies copies(
                #[trigger] after[key],
                id,
            ) <= copies(before[key], id) by {
                lemma_copies_after_removal(before[key], closed, id);
            }
        },
        NiriEventView::WindowFocusChanged { id: focus } => {
            assert forall|key: u64| before.contains_key(key) implies copies(
                #[trigger] after[key],
                id,
            ) == copies(before[key], id) by {
                lemma_copies_after_refocus(before[key], focus, id);
            }
        },
        _ => {},
    }
}

/// Closing a window changes nothing but the buckets: the state goes on
/// naming the focused window that it named, even if that is the window
/// that was closed.
pub proof fn lemma_closing_keeps_the_named_focus(state: NiriStateView, id: u64)
    ensures
        ({
            let after = reduce(state, NiriEventView::WindowClosed { id });
            &&& after.focused_window_id == state.focused_window_id
            &&& after.focused_workspace_id == state.focused_workspace_id
            &&& after.workspaces == state.workspaces
            &&& after.windows_by_workspace.dom() == state.windows_by_workspace.dom()
        }),
{
    let after = reduce(state, NiriEventView::WindowClosed { id });
    assert(after.windows_by_workspace.dom() =~= state.windows_by_workspace.dom());
}

/// An event that changes what is known of a window takes effect whatever
/// the state before it held.
pub proof fn lemma_event_takes_effect(state: NiriStateView, event: NiriEventView)
    ensures
        reflects(reduce(state, event), event),
{
    match event {
        NiriEventView::WindowOpenedOrChanged { window } => {
            lemma_upsert_keeps_one_copy(state.windows_by_workspace, window);
        },
        NiriEventView::WindowClosed { id } => {
            lemma_closed_window_is_absent(state.windows_by_workspace, id);
        },
        NiriEventView::WindowFocusChanged { id } => {
            lemma_focus_consistency(state, id);
        },
        _ => {},
    }
}

/// Of two events that change what is known of the same window, the later
/// one wins: the state after both shows the later event's effect, whatever
/// the kinds of the two events and whatever the state before them.
pub proof fn lemma_last_write_wins(
    state: NiriStateView,
    first: NiriEventView,
    second: NiriEventView,
    id: u64,
)
    requires
        affects_window(first, id),
        affects_window(second, id),
    ensures
        reflects(reduce(reduce(state, first), second), second),
{
    lemma_event_takes_effect(reduce(state, first), second);
}

/// After a workspace was activated with the focus, the focused workspaces
/// are exactly those with the activated identity, which the state names as
/// the focused workspace; where identities are distinct, at most one
/// workspace is focused. Whether or not the focus moved, the active
/// workspaces are exactly those with the activated identity.
pub proof fn lemma_activation_moves_the_flags(state: NiriStateView, id: u64, focused: bool)
    ensures
        ({
            let after = reduce(state, NiriEventView::WorkspaceActivated { id, focused });
            &&& after.workspaces.len() == state.workspaces.len()
            &&& forall|i: int|
                0 <= i < after.workspaces.len() ==> (#[trigger] after.workspaces[i]).id
                    == state.workspaces[i].id && after.workspaces[i].idx == state.workspaces[i].idx
                    && (after.workspaces[i].is_active <==> after.workspaces[i].id == id)
            &&& focused ==> after.focused_workspace_id == Some(id) && forall|i: int|
                0 <= i < after.workspaces.len() ==> ((#[trigger] after.workspaces[i]).is_focused
                    <==> after.workspaces[i].id == id)
            &&& !focused ==> after.focused_workspace_id == state.focused_workspace_id && forall|
                i: int,
            |
                0 <= i < after.workspaces.len() ==> (#[trigger] after.workspaces[i]).is_focused
                    == state.workspaces[i].is_focused
        }),
{
}

/// After the workspace list was replaced, the state names a focused
/// workspace exactly if the list has one, and the one it names is in the
/// list and has its focused flag set.
pub proof fn lemma_replaced_workspaces_name_their_focus(
    state: NiriStateView,
    workspaces: Seq<crate::types::Workspace>,
)
    ensures
        ({
            let after = reduce(state, NiriEventView::WorkspacesChanged { workspaces });
            &&& after.workspaces == workspaces
            &&& after.focused_workspace_id is Some <==> exists|i: int|
                0 <= i < workspaces.len() && (#[trigger] workspaces[i]).is_focused
            &&& after.focused_workspace_id is Some ==> exists|i: int|
                0 <= i < workspaces.len() && (#[trigger] workspaces[i]).is_focused
                    && workspaces[i].id == after.focused_workspace_id->0
        }),
{
    let keep = crate::reducer::workspace_is_focused();
    let kept = workspaces.filter(keep);
    if kept.len() > 0 {
        workspaces.lemma_filter_pred(keep, 0);
        assert(kept.contains(kept[0]));
        workspaces.lemma_filter_contains_rev(keep, kept[0]);
        let i = choose|i: int| 0 <= i < workspaces.len() && workspaces[i] == kept[0];
        assert(workspaces[i].is_focused);
    } else {
        assert forall|i: int| 0 <= i < workspaces.len() implies !(
        #[trigger] workspaces[i]).is_focused by {
            if workspaces[i].is_focused {
                workspaces.lemma_filter_contains(keep, i);
            }
        }
    }
}

/// Filtering by two predicates gives the same whichever is applied first.
pub proof fn lemma_filter_commutes<A>(list: Seq<A>, p: spec_fn(A) -> bool, q: spec_fn(A) -> bool)
    ensures
        list.filter(p).filter(q) == list.filter(q).filter(p),
    decreases list.len(),
{
    reveal(Seq::filter);
    if list.len() > 0 {
        let front = list.drop_last();
        let last = list.last();
        assert(list == front.push(last));
        lemma_filter_commutes(front, p, q);
        lemma_filter_push(front, last, p);
        lemma_filter_push(front, last, q);
        lemma_filter_push(front.filter(p), last, q);
        lemma_filter_push(front.filter(q), last, p);
    }
}

/// A replacement of the whole window list keeps a window in at most one
/// bucket, and once there, if the list names the window at most once.
pub proof fn lemma_replacement_preserves_uniqueness(
    state: NiriStateView,
    windows: Seq<WindowView>,
    id: u64,
)
    requires
        copies(windows, id) <= 1,
    ensures
        kept_at_most_once(
            reduce(state, NiriEventView::WindowsChanged { windows }).windows_by_workspace,
            id,
        ),
{
    let buckets = bucketed(windows);
    let named = windows.filter(has_id(id));
    reveal(Seq::filter);
    assert forall|key: u64| buckets.contains_key(key) implies copies(#[trigger] buckets[key], id)
        == named.filter(crate::reducer::lies_in(key)).len() by {
        lemma_filter_commutes(windows, crate::reducer::lies_in(key), has_id(id));
    }
    assert forall|key: u64| buckets.contains_key(key) implies copies(#[trigger] buckets[key], id)
        <= 1 by {
        named.lemma_filter_len(crate::reducer::lies_in(key));
    }
    assert forall|a: u64, b: u64|
        buckets.contains_key(a) && buckets.contains_key(b) && copies(#[trigger] buckets[a], id) > 0
            && copies(#[trigger] buckets[b], id) > 0 implies a == b by {
        named.lemma_filter_len(crate::reducer::lies_in(a));
        assert(named.len() == 1);
        let none = Seq::<WindowView>::empty();
        assert(named =~= none.push(named[0]));
        lemma_filter_push(none, named[0], crate::reducer::lies_in(a));
        lemma_filter_push(none, named[0], crate::reducer::lies_in(b));
        assert(none.filter(crate::reducer::lies_in(a)).len() == 0);
        assert(none.filter(crate::reducer::lies_in(b)).len() == 0);
    }
}

} // verus!
