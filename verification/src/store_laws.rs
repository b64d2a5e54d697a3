//! Laws of the task store, stated over its mathematical model.

use crate::task_manager::StoreView;
use vstd::prelude::*;

verus! {

impl StoreView {
    /// The store after each of `names` has been offered as a valid state,
    /// in order.
    pub open spec fn after_states(self, names: Seq<Seq<char>>) -> StoreView
        decreases names.len(),
    {
        if names.len() == 0 {
            self
        } else {
            self.after_states(names.drop_last()).with_state(names.last())
        }
    }

    /// Every key lies below the counter and no valid state occurs twice.
    /// Stores that are built from an empty one by the operations of the
    /// store are of this form.
    pub open spec fn well_formed(self) -> bool {
        &&& self.valid_states.no_duplicates()
        &&& forall|k: u64| self.tasks.contains_key(k) ==> k < self.next_id
    }
}

/// Whether `first` occurs in `names` before any occurrence of `second`.
pub open spec fn offered_before(names: Seq<Seq<char>>, first: Seq<char>, second: Seq<char>) -> bool {
    exists|a: int|
        0 <= a < names.len() && #[trigger] names[a] == first && forall|b: int|
            0 <= b <= a ==> names[b] != second
}

/// However many states are offered, in whatever order and however often:
/// no state occurs twice in the list, the states that were there before stay
/// in front in their order, the list holds exactly the earlier and the
/// offered states, and of two new states the one that was offered first
/// comes first.
pub proof fn lemma_states_unique_in_order_of_first_offer(store: StoreView, names: Seq<Seq<char>>)
    requires
        store.valid_states.no_duplicates(),
    ensures
        ({
            let before = store.valid_states;
            let after = store.after_states(names).valid_states;
            &&& after.no_duplicates()
            &&& before.len() <= after.len()
            &&& after.subrange(0, before.len() as int) == before
            &&& forall|n: Seq<char>|
                after.contains(n) <==> before.contains(n) || names.contains(n)
            &&& forall|i: int, j: int|
                before.len() <= i < j < after.len() ==> offered_before(names, after[i], after[j])
        }),
    decreases names.len(),
{
    let before = store.valid_states;
    let after = store.after_states(names).valid_states;
    if names.len() == 0 {
        assert(after.subrange(0, before.len() as int) =~= before);
    } else {
        let init = names.drop_last();
        let last = names.last();
        lemma_states_unique_in_order_of_first_offer(store, init);
        let mid = store.after_states(init).valid_states;
        assert(mid.subrange(0, before.len() as int) == before);
        assert forall|k: int| 0 <= k < before.len() implies mid[k] == before[k] by {
            assert(mid.subrange(0, before.len() as int)[k] == mid[k]);
        }
        assert(after.subrange(0, before.len() as int) =~= before);
        assert forall|n: Seq<char>|
            after.contains(n) <==> before.contains(n) || names.contains(n) by {
            if names.contains(n) {
                let a = choose|a: int| 0 <= a < names.len() && names[a] == n;
                if a < init.len() {
                    assert(init[a] == n);
                    assert(init.contains(n));
                } else {
                    assert(n == last);
                }
            }
            if init.contains(n) {
                let a = choose|a: int| 0 <= a < init.len() && init[a] == n;
                assert(names[a] == n);
            }
            assert(names[names.len() - 1] == last);
            if mid.contains(last) {
            } else {
                assert(after == mid.push(last));
                assert(after[mid.len() as int] == last);
                if after.contains(n) {
                    let k = choose|k: int| 0 <= k < after.len() && after[k] == n;
                    if k < mid.len() {
                        assert(mid[k] == n);
                    }
                }
                if mid.contains(n) {
                    let k = choose|k: int| 0 <= k < mid.len() && mid[k] == n;
                    assert(after[k] == n);
                }
            }
        }
        assert forall|i: int, j: int| before.len() <= i < j < after.len() implies offered_before(
            names,
            after[i],
            after[j],
        ) by {
            if j < mid.len() {
                assert(offered_before(init, mid[i], mid[j]));
                let a = choose|a: int|
                    0 <= a < init.len() && #[trigger] init[a] == mid[i] && forall|b: int|
                        0 <= b <= a ==> init[b] != mid[j];
                assert(names[a] == after[i]);
                assert forall|b: int| 0 <= b <= a implies names[b] != after[j] by {
                    assert(init[b] != mid[j]);
                }
            } else {
                assert(!mid.contains(last));
                assert(after[j] == last);
                assert(mid.contains(mid[i]));
                assert(!before.contains(mid[i])) by {
                    if before.contains(mid[i]) {
                        let k = choose|k: int| 0 <= k < before.len() && before[k] == mid[i];
                        assert(mid[k] == mid[i]);
                    }
                }
                assert(init.contains(mid[i]));
                let a = choose|a: int| 0 <= a < init.len() && init[a] == mid[i];
                assert(names[a] == after[i]);
                assert forall|b: int| 0 <= b <= a implies names[b] != after[j] by {
                    assert(init.contains(init[b]));
                    assert(mid.contains(init[b]));
                }
            }
        }
    }
}

/// Creating a task in a state that is not valid changes neither the tasks
/// nor, with them, the children of any task; only the counter advances.
pub proof fn lemma_invalid_state_leaves_tasks(
    store: StoreView,
    title: Seq<char>,
    state: Seq<char>,
    description: Seq<char>,
    parent: Option<u64>,
)
    requires
        !store.valid_states.contains(state),
    ensures
        !store.accepts(state, parent),
        store.with_task(title, state, description, parent).tasks == store.tasks,
        store.with_task(title, state, description, parent) == (StoreView {
            next_id: (store.next_id + 1) as u64,
            ..store
        }),
{
}

/// Creating a task in a valid state under an existing parent, in a store
/// whose keys lie below the counter, stores the task under the new
/// identifier with that parent, and the children of the parent end with the
/// new identifier; every other task is as before.
pub proof fn lemma_child_is_linked(
    store: StoreView,
    title: Seq<char>,
    state: Seq<char>,
    description: Seq<char>,
    parent: u64,
)
    requires
        store.valid_states.contains(state),
        store.tasks.contains_key(parent),
        forall|k: u64| store.tasks.contains_key(k) ==> k < store.next_id,
    ensures
        ({
            let after = store.with_task(title, state, description, Some(parent));
            &&& store.accepts(state, Some(parent))
            &&& after.tasks.contains_key(store.next_id)
            &&& after.tasks[store.next_id] == store.new_task(
                title,
                state,
                description,
                Some(parent),
            )
            &&& after.tasks[store.next_id].parent == Some(parent)
            &&& after.tasks.contains_key(parent)
            &&& after.tasks[parent].children == store.tasks[parent].children.push(store.next_id)
            &&& after.tasks[parent].children.last() == store.next_id
            &&& after.tasks.dom() == store.tasks.dom().insert(store.next_id)
            &&& forall|k: u64|
                store.tasks.contains_key(k) && k != parent ==> after.tasks[k] == store.tasks[k]
        }),
{
    let after = store.with_task(title, state, description, Some(parent));
    assert(after.tasks.dom() =~= store.tasks.dom().insert(store.next_id));
}

/// Creating a task under a parent that does not exist fails exactly as an
/// invalid state does: nothing is inserted and only the counter advances.
pub proof fn lemma_missing_parent_fails_like_invalid_state(
    store: StoreView,
    title: Seq<char>,
    state: Seq<char>,
    description: Seq<char>,
    parent: u64,
    invalid: Seq<char>,
)
    requires
        !store.tasks.contains_key(parent),
        !store.valid_states.contains(invalid),
    ensures
        !store.accepts(state, Some(parent)),
        store.with_task(title, state, description, Some(parent)).tasks == store.tasks,
        store.with_task(title, state, description, Some(parent)) == store.with_task(
            title,
            invalid,
            description,
            None,
        ),
{
}

/// Taking the snapshot of a store that has a persistence target and starting
/// a store with the same target from that snapshot gives the same tasks, the
/// same valid states in the same order and the same counter.
pub proof fn lemma_snapshot_round_trip(store: StoreView, fresh: StoreView)
    requires
        fresh.target is Some,
    ensures
        fresh.initialized(Some(store.snapshot())).snapshot() == store.snapshot(),
        fresh.initialized(Some(store.snapshot())).tasks == store.tasks,
        fresh.initialized(Some(store.snapshot())).valid_states == store.valid_states,
        fresh.initialized(Some(store.snapshot())).next_id == store.next_id,
{
}

/// The operations of the store keep it well formed, as long as the counter
/// has not run out.
pub proof fn lemma_operations_keep_well_formed(
    store: StoreView,
    name: Seq<char>,
    title: Seq<char>,
    state: Seq<char>,
    description: Seq<char>,
    parent: Option<u64>,
)
    requires
        store.well_formed(),
        store.next_id < u64::MAX,
    ensures
        StoreView::empty(store.target).well_formed(),
        store.with_state(name).well_formed(),
        store.with_default_states().well_formed(),
        store.with_task(title, state, description, parent).well_formed(),
{
    assert(store.with_state(name).well_formed()) by {
        lemma_with_state_unique(store, name);
    }
    let s1 = store.with_state("Open"@);
    lemma_with_state_unique(store, "Open"@);
    let s2 = s1.with_state("Selected for development"@);
    lemma_with_state_unique(s1, "Selected for development"@);
    let s3 = s2.with_state("In progress"@);
    lemma_with_state_unique(s2, "In progress"@);
    lemma_with_state_unique(s3, "Done"@);
}

/// Offering one state keeps the list free of duplicates.
proof fn lemma_with_state_unique(store: StoreView, name: Seq<char>)
    requires
        store.valid_states.no_duplicates(),
    ensures
        store.with_state(name).valid_states.no_duplicates(),
        store.with_state(name).tasks == store.tasks,
        store.with_state(name).next_id == store.next_id,
{
    if !store.valid_states.contains(name) {
        let after = store.valid_states.push(name);
        assert forall|i: int, j: int|
            0 <= i < after.len() && 0 <= j < after.len() && i != j implies after[i] != after[j] by {
            if i < store.valid_states.len() {
                assert(store.valid_states.contains(after[i]));
            }
            if j < store.valid_states.len() {
                assert(store.valid_states.contains(after[j]));
            }
        }
    }
}

} // verus!
