//! Counting the windows that the state keeps.

use crate::types::{bucket_keys, NiriState, WindowView};
use vstd::prelude::*;

verus! {

broadcast use vstd::std_specs::hash::group_hash_axioms;

/// How many windows the buckets hold, all buckets together.
pub open spec fn window_count(buckets: Map<u64, Seq<WindowView>>) -> nat
    decreases buckets.dom().len(),
    when buckets.dom().finite()
{
    if buckets.dom().len() == 0 {
        0
    } else {
        let key = buckets.dom().choose();
        buckets[key].len() + window_count(buckets.remove(key))
    }
}

/// How many windows the buckets under the listed keys hold.
pub open spec fn listed_count(keys: Seq<u64>, buckets: Map<u64, Seq<WindowView>>) -> nat
    decreases keys.len(),
{
    if keys.len() == 0 {
        0
    } else {
        listed_count(keys.drop_last(), buckets) + buckets[keys.last()].len()
    }
}

/// Taking one key off the list takes its bucket's windows off the count.
proof fn lemma_listed_count_without(keys: Seq<u64>, buckets: Map<u64, Seq<WindowView>>, at: int)
    requires
        0 <= at < keys.len(),
    ensures
        listed_count(keys, buckets) == listed_count(keys.remove(at), buckets)
            + buckets[keys[at]].len(),
    decreases keys.len(),
{
    if at == keys.len() - 1 {
        assert(keys.remove(at) =~= keys.drop_last());
    } else {
        lemma_listed_count_without(keys.drop_last(), buckets, at);
        assert(keys.remove(at).drop_last() =~= keys.drop_last().remove(at));
        assert(keys.remove(at).last() == keys.last());
    }
}

/// A bucket that no listed key names adds nothing to the count.
proof fn lemma_listed_count_ignores(keys: Seq<u64>, buckets: Map<u64, Seq<WindowView>>, key: u64)
    requires
        !keys.contains(key),
    ensures
        listed_count(keys, buckets.remove(key)) == listed_count(keys, buckets),
    decreases keys.len(),
{
    if keys.len() > 0 {
        assert(keys.last() == keys[keys.len() - 1]);
        assert(keys.contains(keys.last()));
        assert forall|k: u64| keys.drop_last().contains(k) implies keys.contains(k) by {
            let i = choose|i: int| 0 <= i < keys.drop_last().len() && keys.drop_last()[i] == k;
            assert(keys[i] == k);
        }
        lemma_listed_count_ignores(keys.drop_last(), buckets, key);
    }
}

/// Counting bucket by bucket along a list that names every key once gives
/// the number of windows, in whatever order the list names the keys.
pub proof fn lemma_listed_count_is_window_count(keys: Seq<u64>, buckets: Map<u64, Seq<WindowView>>)
    requires
        keys.no_duplicates(),
        keys.to_set() == buckets.dom(),
    ensures
        buckets.dom().finite(),
        listed_count(keys, buckets) == window_count(buckets),
    decreases keys.len(),
{
    vstd::seq_lib::seq_to_set_is_finite(keys);
    keys.unique_seq_to_set();
    if keys.len() == 0 {
    } else {
        let key = buckets.dom().choose();
        assert(buckets.dom().contains(key));
        assert(keys.to_set().contains(key));
        let at = choose|i: int| 0 <= i < keys.len() && keys[i] == key;
        let rest = keys.remove(at);
        lemma_listed_count_without(keys, buckets, at);
        assert forall|i: int, j: int| 0 <= i < j < rest.len() implies rest[i] != rest[j] by {
            let a = if i < at { i } else { i + 1 };
            let b = if j < at { j } else { j + 1 };
            assert(rest[i] == keys[a]);
            assert(rest[j] == keys[b]);
        }
        assert(rest.no_duplicates());
        assert forall|k: u64| rest.contains(k) <==> (keys.contains(k) && k != key) by {
            if rest.contains(k) {
                let i = choose|i: int| 0 <= i < rest.len() && rest[i] == k;
                let a = if i < at { i } else { i + 1 };
                assert(keys[a] == k);
            }
            if keys.contains(k) && k != key {
                let a = choose|a: int| 0 <= a < keys.len() && keys[a] == k;
                let i = if a < at { a } else { a - 1 };
                assert(rest[i] == k);
            }
        }
        assert(rest.to_set() =~= buckets.remove(key).dom());
        lemma_listed_count_ignores(rest, buckets, key);
        lemma_listed_count_is_window_count(rest, buckets.remove(key));
    }
}

impl NiriState {
    /// How many windows the state keeps, all buckets together.
    pub fn total_windows(&self) -> (total: usize)
        requires
            window_count(self@.windows_by_workspace) <= usize::MAX,
        ensures
            total == window_count(self@.windows_by_workspace),
    {
        let keys = bucket_keys(&self.windows_by_workspace);
        let ghost buckets = self@.windows_by_workspace;
        proof {
            assert(buckets.dom() =~= self.windows_by_workspace@.dom());
            lemma_listed_count_is_window_count(keys@, buckets);
        }
        let mut total: usize = 0;
        let mut i: usize = 0;
        while i < keys.len()
            invariant
                i <= keys.len(),
                buckets == self@.windows_by_workspace,
                keys@.to_set() == self.windows_by_workspace@.dom(),
                total == listed_count(keys@.take(i as int), buckets),
                listed_count(keys@, buckets) <= usize::MAX,
            decreases keys.len() - i,
        {
            let key = keys[i];
            proof {
                assert(keys@.to_set().contains(keys@[i as int]));
                assert(keys@.take(i + 1).drop_last() =~= keys@.take(i as int));
                lemma_listed_count_grows(keys@, buckets, i + 1);
            }
            match self.windows_by_workspace.get(&key) {
                Some(windows) => {
                    total = total + windows.len();
                },
                None => {},
            }
            i += 1;
        }
        proof {
            assert(keys@.take(i as int) == keys@);
        }
        total
    }
}

/// The count along the first keys of a list is at most the count along
/// the whole list.
proof fn lemma_listed_count_grows(keys: Seq<u64>, buckets: Map<u64, Seq<WindowView>>, upto: int)
    requires
        0 <= upto <= keys.len(),
    ensures
        listed_count(keys.take(upto), buckets) <= listed_count(keys, buckets),
    decreases keys.len() - upto,
{
    if upto < keys.len() {
        lemma_listed_count_grows(keys, buckets, upto + 1);
        assert(keys.take(upto + 1).drop_last() =~= keys.take(upto));
    } else {
        assert(keys.take(upto) =~= keys);
    }
}

} // verus!
