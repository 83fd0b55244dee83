//! The state reducer: how one event changes the aggregated state.
//!
//! [`reduce`] is the mathematical fold step; [`NiriState::apply_event`] is the
//! executable one and is proved to compute it.

use crate::types::{
    bucket_keys, bucket_views, lemma_views_push, window_views, NiriEvent, NiriEventView, NiriState,
    NiriStateView, Window, WindowView, Workspace, NO_WORKSPACE,
};
use std::collections::hash_map::Entry;
use std::collections::HashMap;
use vstd::prelude::*;

verus! {

broadcast use vstd::std_specs::hash::group_hash_axioms;

/// The bucket a window is kept in: its workspace, or [`NO_WORKSPACE`].
pub open spec fn bucket_of(window: WindowView) -> u64 {
    match window.workspace_id {
        Some(id) => id,
        None => NO_WORKSPACE,
    }
}

/// Holds of the windows kept in bucket `key`.
pub open spec fn lies_in(key: u64) -> spec_fn(WindowView) -> bool {
    |w: WindowView| bucket_of(w) == key
}

/// Holds of every window but the one with identity `id`.
pub open spec fn is_not(id: u64) -> spec_fn(WindowView) -> bool {
    |w: WindowView| w.id != id
}

/// Holds of the windows whose focused flag is set.
pub open spec fn window_is_focused() -> spec_fn(WindowView) -> bool {
    |w: WindowView| w.is_focused
}

/// Holds of the workspaces whose focused flag is set.
pub open spec fn workspace_is_focused() -> spec_fn(Workspace) -> bool {
    |w: Workspace| w.is_focused
}

/// The identity of the first workspace in the list whose focused flag is set.
pub open spec fn focused_workspace(workspaces: Seq<Workspace>) -> Option<u64> {
    let focused = workspaces.filter(workspace_is_focused());
    if focused.len() > 0 {
        Some(focused[0].id)
    } else {
        None
    }
}

/// The identity of the first window in the list whose focused flag is set.
pub open spec fn focused_window(windows: Seq<WindowView>) -> Option<u64> {
    let focused = windows.filter(window_is_focused());
    if focused.len() > 0 {
        Some(focused[0].id)
    } else {
        None
    }
}

/// A workspace after workspace `id` was activated: it is active iff it is
/// that workspace, and where the activation also moved the focus, focused
/// iff it is that workspace.
pub open spec fn activated(workspace: Workspace, id: u64, focused: bool) -> Workspace {
    Workspace {
        id: workspace.id,
        idx: workspace.idx,
        is_active: workspace.id == id,
        is_focused: if focused {
            workspace.id == id
        } else {
            workspace.is_focused
        },
    }
}

/// The workspace list after workspace `id` was activated.
pub open spec fn activate(workspaces: Seq<Workspace>, id: u64, focused: bool) -> Seq<Workspace> {
    workspaces.map_values(|w: Workspace| activated(w, id, focused))
}

/// The buckets that a full window list fills: a bucket exists for each key
/// that some window of the list lies in, and holds those windows in list order.
pub open spec fn bucketed(windows: Seq<WindowView>) -> Map<u64, Seq<WindowView>> {
    Map::new(
        |key: u64| windows.filter(lies_in(key)).len() > 0,
        |key: u64| windows.filter(lies_in(key)),
    )
}

/// The buckets with every entry for window `id` removed. No bucket is
/// dropped, even when it becomes empty.
pub open spec fn without_window(buckets: Map<u64, Seq<WindowView>>, id: u64) -> Map<
    u64,
    Seq<WindowView>,
> {
    buckets.map_values(|windows: Seq<WindowView>| windows.filter(is_not(id)))
}

/// The windows of bucket `key`; none where the bucket does not exist.
pub open spec fn bucket(buckets: Map<u64, Seq<WindowView>>, key: u64) -> Seq<WindowView> {
    if buckets.contains_key(key) {
        buckets[key]
    } else {
        Seq::empty()
    }
}

/// The buckets with `window` appended to the bucket it lies in.
pub open spec fn with_window(buckets: Map<u64, Seq<WindowView>>, window: WindowView) -> Map<
    u64,
    Seq<WindowView>,
> {
    buckets.insert(bucket_of(window), bucket(buckets, bucket_of(window)).push(window))
}

/// A window after the focus moved to `id`: focused iff it is that window.
pub open spec fn refocused(window: WindowView, id: Option<u64>) -> WindowView {
    WindowView {
        id: window.id,
        workspace_id: window.workspace_id,
        is_focused: Some(window.id) == id,
        title: window.title,
        app_id: window.app_id,
    }
}

/// A window list after the focus moved to `id`.
pub open spec fn refocus(windows: Seq<WindowView>, id: Option<u64>) -> Seq<WindowView> {
    windows.map_values(|w: WindowView| refocused(w, id))
}

/// The buckets after the focus moved to `id`.
pub open spec fn with_focus(buckets: Map<u64, Seq<WindowView>>, id: Option<u64>) -> Map<
    u64,
    Seq<WindowView>,
> {
    buckets.map_values(|windows: Seq<WindowView>| refocus(windows, id))
}

/// The fold step: the state that follows `state` once `event` has arrived.
///
/// A replaced list replaces what the state held of that kind, and the
/// focus of that kind is read off the new list. An opened or changed
/// window is taken out of every bucket and appended to the bucket it lies
/// in. A closed window is taken out of every bucket; the state goes on
/// naming it as the focused window if it did, until the compositor
/// announces where the focus went. An event of any other kind changes
/// nothing.
pub open spec fn reduce(state: NiriStateView, event: NiriEventView) -> NiriStateView {
    match event {
        NiriEventView::WorkspacesChanged { workspaces } => NiriStateView {
            workspaces,
            windows_by_workspace: state.windows_by_workspace,
            focused_window_id: state.focused_window_id,
            focused_workspace_id: focused_workspace(workspaces),
        },
        NiriEventView::WorkspaceActivated { id, focused } => NiriStateView {
            workspaces: activate(state.workspaces, id, focused),
            windows_by_workspace: state.windows_by_workspace,
            focused_window_id: state.focused_window_id,
            focused_workspace_id: if focused {
                Some(id)
            } else {
                state.focused_workspace_id
            },
        },
        NiriEventView::WindowsChanged { windows } => NiriStateView {
            workspaces: state.workspaces,
            windows_by_workspace: bucketed(windows),
            focused_window_id: focused_window(windows),
            focused_workspace_id: state.focused_workspace_id,
        },
        NiriEventView::WindowOpenedOrChanged { window } => NiriStateView {
            workspaces: state.workspaces,
            windows_by_workspace: with_window(
                without_window(state.windows_by_workspace, window.id),
                window,
            ),
            focused_window_id: state.focused_window_id,
            focused_workspace_id: state.focused_workspace_id,
        },
        NiriEventView::WindowClosed { id } => NiriStateView {
            workspaces: state.workspaces,
            windows_by_workspace: without_window(state.windows_by_workspace, id),
            focused_window_id: state.focused_window_id,
            focused_workspace_id: state.focused_workspace_id,
        },
        NiriEventView::WindowFocusChanged { id } => NiriStateView {
            workspaces: state.workspaces,
            windows_by_workspace: with_focus(state.windows_by_workspace, id),
            focused_window_id: id,
            focused_workspace_id: state.focused_workspace_id,
        },
        NiriEventView::Other => state,
    }
}

/// Filtering a list that ends in `last` filters the list before it, and
/// keeps `last` iff the predicate holds of it.
pub proof fn lemma_filter_push<A>(list: Seq<A>, last: A, keep: spec_fn(A) -> bool)
    ensures
        list.push(last).filter(keep) == if keep(last) {
            list.filter(keep).push(last)
        } else {
            list.filter(keep)
        },
{
    reveal(Seq::filter);
    assert(list.push(last).drop_last() =~= list);
}

/// The first workspace of the list whose focused flag is set.
fn find_focused_workspace(workspaces: &Vec<Workspace>) -> (found: Option<u64>)
    ensures
        found == focused_workspace(workspaces@),
{
    let mut i: usize = 0;
    while i < workspaces.len()
        invariant
            i <= workspaces.len(),
            workspaces@.take(i as int).filter(workspace_is_focused()).len() == 0,
        decreases workspaces.len() - i,
    {
        if workspaces[i].is_focused {
            proof {
                lemma_first_match(workspaces@, i as int, workspace_is_focused());
            }
            return Some(workspaces[i].id);
        }
        proof {
            assert(workspaces@.take(i + 1) == workspaces@.take(i as int).push(workspaces@[i as int]));
            lemma_filter_push(workspaces@.take(i as int), workspaces@[i as int], workspace_is_focused());
        }
        i += 1;
    }
    proof {
        assert(workspaces@.take(i as int) == workspaces@);
    }
    None
}

/// Where nothing before position `at` passes the filter and the item at
/// `at` does, that item is the first of the filtered list.
pub proof fn lemma_first_match<A>(list: Seq<A>, at: int, keep: spec_fn(A) -> bool)
    requires
        0 <= at < list.len(),
        list.take(at).filter(keep).len() == 0,
        keep(list[at]),
    ensures
        list.filter(keep).len() > 0,
        list.filter(keep)[0] == list[at],
{
    let head = list.take(at);
    let rest = list.skip(at + 1);
    lemma_filter_push(head, list[at], keep);
    assert(list =~= head.push(list[at]) + rest);
    Seq::filter_distributes_over_add(head.push(list[at]), rest, keep);
}

/// The first window of the list whose focused flag is set.
fn find_focused_window(windows: &Vec<Window>) -> (found: Option<u64>)
    ensures
        found == focused_window(window_views(windows@)),
{
    let ghost views = window_views(windows@);
    let mut i: usize = 0;
    while i < windows.len()
        invariant
            i <= windows.len(),
            views == window_views(windows@),
            views.take(i as int).filter(window_is_focused()).len() == 0,
        decreases windows.len() - i,
    {
        if windows[i].is_focused {
            proof {
                lemma_first_match(views, i as int, window_is_focused());
            }
            return Some(windows[i].id);
        }
        proof {
            assert(views.take(i + 1) == views.take(i as int).push(views[i as int]));
            lemma_filter_push(views.take(i as int), views[i as int], window_is_focused());
        }
        i += 1;
    }
    proof {
        assert(views.take(i as int) == views);
    }
    None
}

/// Marks workspace `id` as the active one and, where `focused` is set, as
/// the focused one; every other workspace loses what `id` gains.
fn activate_workspace(workspaces: &mut Vec<Workspace>, id: u64, focused: bool)
    ensures
        final(workspaces)@ == activate(old(workspaces)@, id, focused),
{
    let ghost initial = workspaces@;
    let mut i: usize = 0;
    while i < workspaces.len()
        invariant
            i <= workspaces.len(),
            workspaces.len() == initial.len(),
            forall|j: int| 0 <= j < i ==> workspaces@[j] == activated(initial[j], id, focused),
            forall|j: int| i <= j < workspaces.len() ==> workspaces@[j] == initial[j],
        decreases workspaces.len() - i,
    {
        let is_target = workspaces[i].id == id;
        workspaces[i].is_active = is_target;
        if focused {
            workspaces[i].is_focused = is_target;
        }
        i += 1;
    }
    proof {
        assert(workspaces@ =~= activate(initial, id, focused));
    }
}

/// Removes every entry for window `id` from the list, keeping the order of
/// the rest.
fn remove_window(windows: &mut Vec<Window>, id: u64)
    ensures
        window_views(final(windows)@) == window_views(old(windows)@).filter(is_not(id)),
{
    let ghost initial = window_views(windows@);
    let ghost mut seen: int = 0;
    let mut i: usize = 0;
    proof {
        reveal(Seq::filter);
        assert(initial.take(0) =~= Seq::empty());
        assert(window_views(windows@).take(0) =~= Seq::empty());
        assert(window_views(windows@).skip(0) =~= initial.skip(0));
    }
    while i < windows.len()
        invariant
            0 <= seen <= initial.len(),
            i <= windows.len(),
            windows.len() - i == initial.len() - seen,
            window_views(windows@).take(i as int) == initial.take(seen).filter(is_not(id)),
            window_views(windows@).skip(i as int) == initial.skip(seen),
        decreases windows.len() - i,
    {
        let ghost before = window_views(windows@);
        proof {
            assert(before[i as int] == before.skip(i as int)[0]);
            assert(before.skip(i + 1) =~= before.skip(i as int).skip(1));
            assert(initial.skip(seen + 1) =~= initial.skip(seen).skip(1));
            assert(initial.take(seen + 1) == initial.take(seen).push(initial[seen]));
            lemma_filter_push(initial.take(seen), initial[seen], is_not(id));
        }
        if windows[i].id == id {
            windows.remove(i);
            proof {
                assert(window_views(windows@) =~= before.remove(i as int));
                assert(window_views(windows@).take(i as int) =~= before.take(i as int));
                assert(window_views(windows@).skip(i as int) =~= before.skip(i + 1));
            }
        } else {
            i += 1;
            proof {
                assert(before.take(i as int) =~= before.take(i - 1).push(before[i - 1]));
            }
        }
        proof {
            seen = seen + 1;
        }
    }
    proof {
        assert(window_views(windows@).take(i as int) == window_views(windows@));
        assert(initial.take(seen) == initial);
    }
}

/// Sets the focused flag of the window with identity `id`, if the list has
/// it, and clears the flag of every other window.
fn mark_focus(windows: &mut Vec<Window>, id: Option<u64>)
    ensures
        window_views(final(windows)@) == refocus(window_views(old(windows)@), id),
{
    let ghost initial = window_views(windows@);
    let mut i: usize = 0;
    while i < windows.len()
        invariant
            i <= windows.len(),
            windows.len() == initial.len(),
            forall|j: int| 0 <= j < i ==> windows@[j]@ == refocused(initial[j], id),
            forall|j: int| i <= j < windows.len() ==> windows@[j]@ == initial[j],
        decreases windows.len() - i,
    {
        let is_target = match id {
            Some(target) => windows[i].id == target,
            None => false,
        };
        windows[i].is_focused = is_target;
        i += 1;
    }
    proof {
        assert(window_views(windows@) =~= refocus(initial, id));
    }
}

/// Removes every entry for window `id` from every bucket.
fn remove_window_everywhere(buckets: &mut HashMap<u64, Vec<Window>>, id: u64)
    ensures
        bucket_views(final(buckets)@) == without_window(bucket_views(old(buckets)@), id),
{
    let keys = bucket_keys(buckets);
    let ghost initial = bucket_views(buckets@);
    let mut i: usize = 0;
    while i < keys.len()
        invariant
            i <= keys.len(),
            keys@.no_duplicates(),
            keys@.to_set() == initial.dom(),
            bucket_views(buckets@).dom() == initial.dom(),
            forall|j: int|
                0 <= j < i ==> bucket_views(buckets@)[#[trigger] keys@[j]] == initial[keys@[j]].filter(
                    is_not(id),
                ),
            forall|j: int|
                i <= j < keys.len() ==> bucket_views(buckets@)[#[trigger] keys@[j]]
                    == initial[keys@[j]],
        decreases keys.len() - i,
    {
        let key = keys[i];
        let ghost before = buckets@;
        proof {
            assert(keys@.to_set().contains(keys@[i as int]));
            assert(before.contains_key(key));
        }
        match buckets.entry(key) {
            Entry::Occupied(mut slot) => {
                remove_window(slot.get_mut(), id);
            },
            Entry::Vacant(_) => {},
        }
        proof {
            assert(buckets@.dom() =~= before.dom());
            assert(bucket_views(buckets@).dom() =~= initial.dom());
            assert forall|j: int| 0 <= j < keys.len() && j != i implies buckets@[keys@[j]]
                == before[keys@[j]] by {}
        }
        i += 1;
    }
    proof {
        let cleaned = without_window(initial, id);
        assert forall|key: u64| cleaned.contains_key(key) implies #[trigger] bucket_views(
            buckets@,
        )[key] == cleaned[key] by {
            assert(keys@.to_set().contains(key));
            let j = choose|j: int| 0 <= j < keys@.len() && keys@[j] == key;
            assert(keys@[j] == key);
        }
        assert(bucket_views(buckets@) =~= cleaned);
    }
}

/// Sets the focused flag of window `id` wherever it is kept, and clears the
/// flag of every other window.
fn mark_focus_everywhere(buckets: &mut HashMap<u64, Vec<Window>>, id: Option<u64>)
    ensures
        bucket_views(final(buckets)@) == with_focus(bucket_views(old(buckets)@), id),
{
    let keys = bucket_keys(buckets);
    let ghost initial = bucket_views(buckets@);
    let mut i: usize = 0;
    while i < keys.len()
        invariant
            i <= keys.len(),
            keys@.no_duplicates(),
            keys@.to_set() == initial.dom(),
            bucket_views(buckets@).dom() == initial.dom(),
            forall|j: int|
                0 <= j < i ==> bucket_views(buckets@)[#[trigger] keys@[j]] == refocus(
                    initial[keys@[j]],
                    id,
                ),
            forall|j: int|
                i <= j < keys.len() ==> bucket_views(buckets@)[#[trigger] keys@[j]]
                    == initial[keys@[j]],
        decreases keys.len() - i,
    {
        let key = keys[i];
        let ghost before = buckets@;
        proof {
            assert(keys@.to_set().contains(keys@[i as int]));
            assert(before.contains_key(key));
        }
        match buckets.entry(key) {
            Entry::Occupied(mut slot) => {
                mark_focus(slot.get_mut(), id);
            },
            Entry::Vacant(_) => {},
        }
        proof {
            assert(buckets@.dom() =~= before.dom());
            assert(bucket_views(buckets@).dom() =~= initial.dom());
            assert forall|j: int| 0 <= j < keys.len() && j != i implies buckets@[keys@[j]]
                == before[keys@[j]] by {}
        }
        i += 1;
    }
    proof {
        let marked = with_focus(initial, id);
        assert forall|key: u64| marked.contains_key(key) implies #[trigger] bucket_views(
            buckets@,
        )[key] == marked[key] by {
            assert(keys@.to_set().contains(key));
            let j = choose|j: int| 0 <= j < keys@.len() && keys@[j] == key;
            assert(keys@[j] == key);
        }
        assert(bucket_views(buckets@) =~= marked);
    }
}

/// Appends `window` to the bucket it lies in, creating the bucket if needed.
fn push_window(buckets: &mut HashMap<u64, Vec<Window>>, window: Window)
    ensures
        bucket_views(final(buckets)@) == with_window(bucket_views(old(buckets)@), window@),
{
    let key = match window.workspace_id {
        Some(id) => id,
        None => NO_WORKSPACE,
    };
    let ghost before = buckets@;
    let ghost held = if before.contains_key(key) {
        before[key]@
    } else {
        Seq::empty()
    };
    buckets.entry(key).or_insert(Vec::new()).push(window);
    proof {
        assert(buckets@[key]@ == held.push(window));
        lemma_views_push(held, window);
        assert(window_views(held) =~= bucket(bucket_views(before), key));
        assert(bucket_views(buckets@) =~= with_window(bucket_views(before), window@));
    }
}

/// The buckets of a list that ends in `last` are those of the list before
/// it, with `last` appended to its bucket.
pub proof fn lemma_bucketed_push(windows: Seq<WindowView>, last: WindowView)
    ensures
        bucketed(windows.push(last)) == with_window(bucketed(windows), last),
{
    let grown = bucketed(windows.push(last));
    let target = with_window(bucketed(windows), last);
    assert forall|key: u64| grown.dom().contains(key) == target.dom().contains(key) by {
        lemma_filter_push(windows, last, lies_in(key));
    }
    assert(grown.dom() =~= target.dom());
    assert forall|key: u64| grown.dom().contains(key) implies #[trigger] grown[key]
        == target[key] by {
        lemma_filter_push(windows, last, lies_in(key));
        if bucket_of(last) == key && windows.filter(lies_in(key)).len() == 0 {
            assert(windows.filter(lies_in(key)) =~= Seq::empty());
        }
    }
    assert(grown =~= target);
}

/// Replaces every bucket by the buckets that `windows` fills.
fn rebucket(buckets: &mut HashMap<u64, Vec<Window>>, windows: &Vec<Window>)
    ensures
        bucket_views(final(buckets)@) == bucketed(window_views(windows@)),
{
    let ghost views = window_views(windows@);
    buckets.clear();
    proof {
        reveal(Seq::filter);
        assert(views.take(0) =~= Seq::empty());
        assert(bucket_views(buckets@) =~= bucketed(views.take(0)));
    }
    let mut i: usize = 0;
    while i < windows.len()
        invariant
            i <= windows.len(),
            views == window_views(windows@),
            bucket_views(buckets@) == bucketed(views.take(i as int)),
        decreases windows.len() - i,
    {
        push_window(buckets, windows[i].clone());
        proof {
            assert(views.take(i + 1) == views.take(i as int).push(views[i as int]));
            lemma_bucketed_push(views.take(i as int), views[i as int]);
        }
        i += 1;
    }
    proof {
        assert(views.take(i as int) == views);
    }
}

impl NiriState {
    /// Folds one event into the state.
    pub fn apply_event(&mut self, event: &NiriEvent)
        ensures
            final(self)@ == reduce(old(self)@, event@),
    {
        match event {
            NiriEvent::WorkspacesChanged { workspaces } => {
                self.focused_workspace_id = find_focused_workspace(workspaces);
                self.workspaces = crate::types::clone_workspaces(workspaces);
            },
            NiriEvent::WorkspaceActivated { id, focused } => {
                activate_workspace(&mut self.workspaces, *id, *focused);
                if *focused {
                    self.focused_workspace_id = Some(*id);
                }
            },
            NiriEvent::WindowsChanged { windows } => {
                self.focused_window_id = find_focused_window(windows);
                rebucket(&mut self.windows_by_workspace, windows);
            },
            NiriEvent::WindowOpenedOrChanged { window } => {
                remove_window_everywhere(&mut self.windows_by_workspace, window.id);
                push_window(&mut self.windows_by_workspace, window.clone());
            },
            NiriEvent::WindowClosed { id } => {
                remove_window_everywhere(&mut self.windows_by_workspace, *id);
            },
            NiriEvent::WindowFocusChanged { id } => {
                self.focused_window_id = *id;
                mark_focus_everywhere(&mut self.windows_by_workspace, *id);
            },
            NiriEvent::Other => {},
        }
    }
}

} // verus!
