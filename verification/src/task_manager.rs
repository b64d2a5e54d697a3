//! The task store: tasks keyed by identifier, the ordered list of valid
//! workflow states and the counter that hands out identifiers.

use crate::task::{raw_ids, Task, TaskId, TaskView};
use std::collections::HashMap;
use vstd::prelude::*;
use vstd::std_specs::iter::IteratorSpec;
use vstd::string::StringExecFns;

verus! {

broadcast use vstd::std_specs::hash::group_hash_axioms;

/// The unit that is written to and read from durable storage.
pub struct TasksState {
    pub tasks: HashMap<u64, Task>,
    pub valid_states: Vec<String>,
    pub next_valid_id: u64,
}

/// Mathematical model of a [`TasksState`].
pub struct TasksStateView {
    pub tasks: Map<u64, TaskView>,
    pub valid_states: Seq<Seq<char>>,
    pub next_id: u64,
}

/// The names held by a list of strings.
pub open spec fn state_names(states: Seq<String>) -> Seq<Seq<char>> {
    states.map_values(|s: String| s@)
}

/// The models of the tasks held by a map.
pub open spec fn task_views(tasks: Map<u64, Task>) -> Map<u64, TaskView> {
    tasks.map_values(|t: Task| t@)
}

impl View for TasksState {
    type V = TasksStateView;

    open spec fn view(&self) -> TasksStateView {
        TasksStateView {
            tasks: task_views(self.tasks@),
            valid_states: state_names(self.valid_states@),
            next_id: self.next_valid_id,
        }
    }
}

/// Mathematical model of a [`TaskManager`].
pub struct StoreView {
    pub tasks: Map<u64, TaskView>,
    pub valid_states: Seq<Seq<char>>,
    pub next_id: u64,
    /// Where the store is persisted, if anywhere.
    pub target: Option<Seq<char>>,
    /// Whether a change has been made that is not yet written out.
    pub save_pending: bool,
}

impl StoreView {
    /// A store without tasks or states.
    pub open spec fn empty(target: Option<Seq<char>>) -> StoreView {
        StoreView {
            tasks: Map::empty(),
            valid_states: Seq::empty(),
            next_id: 0,
            target,
            save_pending: false,
        }
    }

    /// The persisted part of the store.
    pub open spec fn snapshot(self) -> TasksStateView {
        TasksStateView {
            tasks: self.tasks,
            valid_states: self.valid_states,
            next_id: self.next_id,
        }
    }

    /// The store after `name` has been offered as a valid state: appended
    /// unless it is already present.
    pub open spec fn with_state(self, name: Seq<char>) -> StoreView {
        if self.valid_states.contains(name) {
            self
        } else {
            StoreView {
                valid_states: self.valid_states.push(name),
                save_pending: true,
                ..self
            }
        }
    }

    /// The store after the four default states have been offered in order.
    pub open spec fn with_default_states(self) -> StoreView {
        self.with_state("Open"@).with_state("Selected for development"@).with_state(
            "In progress"@,
        ).with_state("Done"@)
    }

    /// The store after start-up: a stored snapshot replaces the persisted
    /// part if a target is configured and a snapshot was read from it;
    /// otherwise the default states are offered.
    pub open spec fn initialized(self, stored: Option<TasksStateView>) -> StoreView {
        if self.target is Some && stored is Some {
            StoreView {
                tasks: stored->0.tasks,
                valid_states: stored->0.valid_states,
                next_id: stored->0.next_id,
                ..self
            }
        } else {
            self.with_default_states()
        }
    }

    /// Whether a task in `state`, under `parent` if one is given, is accepted.
    pub open spec fn accepts(self, state: Seq<char>, parent: Option<u64>) -> bool {
        &&& self.valid_states.contains(state)
        &&& parent matches Some(p) ==> self.tasks.contains_key(p)
    }

    /// The task that a successful creation inserts.
    pub open spec fn new_task(
        self,
        title: Seq<char>,
        state: Seq<char>,
        description: Seq<char>,
        parent: Option<u64>,
    ) -> TaskView {
        TaskView { id: self.next_id, title, state, description, parent, children: Seq::empty() }
    }

    /// The tasks after `child` has been appended to the children of `parent`.
    pub open spec fn linked(tasks: Map<u64, TaskView>, parent: Option<u64>, child: u64) -> Map<
        u64,
        TaskView,
    > {
        match parent {
            Some(p) => tasks.insert(
                p,
                TaskView { children: tasks[p].children.push(child), ..tasks[p] },
            ),
            None => tasks,
        }
    }

    /// The store after an attempt to create a task. The counter advances in
    /// every case; the tasks change only if the attempt is accepted.
    pub open spec fn with_task(
        self,
        title: Seq<char>,
        state: Seq<char>,
        description: Seq<char>,
        parent: Option<u64>,
    ) -> StoreView
        recommends
            self.next_id < u64::MAX,
    {
        if self.accepts(state, parent) {
            StoreView {
                tasks: Self::linked(self.tasks, parent, self.next_id).insert(
                    self.next_id,
                    self.new_task(title, state, description, parent),
                ),
                next_id: (self.next_id + 1) as u64,
                save_pending: true,
                ..self
            }
        } else {
            StoreView { next_id: (self.next_id + 1) as u64, ..self }
        }
    }
}

/// The models of a list of borrowed tasks.
pub open spec fn borrowed_task_views(tasks: Seq<&Task>) -> Seq<TaskView> {
    tasks.map_values(|t: &Task| t@)
}

/// Whether `listed` holds the tasks of `tasks`, each key's task once.
pub open spec fn lists_each_once(listed: Seq<TaskView>, tasks: Map<u64, TaskView>) -> bool {
    exists|keys: Seq<u64>|
        {
            &&& keys.no_duplicates()
            &&& keys.to_set() == tasks.dom()
            &&& #[trigger] keys.len() == listed.len()
            &&& forall|i: int| 0 <= i < keys.len() ==> listed[i] == tasks[keys[i]]
        }
}

/// Owns the tasks and the valid states, and decides when they must be
/// written out.
pub struct TaskManager {
    tasks_state: TasksState,
    file_path_opt: Option<String>,
    save_pending: bool,
}

impl View for TaskManager {
    type V = StoreView;

    closed spec fn view(&self) -> StoreView {
        StoreView {
            tasks: self.tasks_state@.tasks,
            valid_states: self.tasks_state@.valid_states,
            next_id: self.tasks_state@.next_id,
            target: match self.file_path_opt {
                Some(p) => Some(p@),
                None => None,
            },
            save_pending: self.save_pending,
        }
    }
}

/// Whether `name` is among `states`.
fn contains_state(states: &Vec<String>, name: &String) -> (found: bool)
    ensures
        found == state_names(states@).contains(name@),
{
    let mut i: usize = 0;
    while i < states.len()
        invariant
            i <= states.len(),
            forall|j: int| 0 <= j < i ==> state_names(states@)[j] != name@,
        decreases states.len() - i,
    {
        if states[i] == *name {
            assert(state_names(states@)[i as int] == name@);
            return true;
        }
        i = i + 1;
    }
    false
}

impl TaskManager {
    /// An empty store that is persisted at `file_path_opt`, if given.
    pub fn new(file_path_opt: Option<String>) -> (manager: TaskManager)
        ensures
            manager@ == StoreView::empty(
                match file_path_opt {
                    Some(p) => Some(p@),
                    None => None,
                },
            ),
    {
        let manager = TaskManager {
            tasks_state: TasksState {
                tasks: HashMap::new(),
                valid_states: Vec::new(),
                next_valid_id: 0,
            },
            file_path_opt,
            save_pending: false,
        };
        assert(manager@.tasks =~= Map::empty());
        assert(manager@.valid_states =~= Seq::empty());
        manager
    }

    /// Offers `state` as a valid state. Returns whether it was appended.
    pub fn add_state(&mut self, state: String) -> (added: bool)
        ensures
            final(self)@ == old(self)@.with_state(state@),
            added == !old(self)@.valid_states.contains(state@),
    {
        if contains_state(&self.tasks_state.valid_states, &state) {
            return false;
        }
        self.tasks_state.valid_states.push(state);
        self.save_pending = true;
        assert(self@.valid_states =~= old(self)@.valid_states.push(state@));
        true
    }

    /// The valid states in insertion order.
    pub fn get_states(&self) -> (states: &Vec<String>)
        ensures
            state_names(states@) == self@.valid_states,
    {
        &self.tasks_state.valid_states
    }

    /// Start-up. `stored` is the snapshot read from the persistence target,
    /// if one is configured and its content could be read back. It replaces
    /// the persisted part of the store; without it the default states are
    /// offered.
    pub fn initialize(&mut self, stored: Option<TasksState>)
        ensures
            final(self)@ == old(self)@.initialized(
                match stored {
                    Some(s) => Some(s@),
                    None => None,
                },
            ),
    {
        if self.file_path_opt.is_some() {
            if let Some(state) = stored {
                self.tasks_state = state;
                return;
            }
        }
        self.add_state(String::from_str("Open"));
        self.add_state(String::from_str("Selected for development"));
        self.add_state(String::from_str("In progress"));
        self.add_state(String::from_str("Done"));
    }

    /// The persisted part of the store.
    pub fn state(&self) -> (state: &TasksState)
        ensures
            state@ == self@.snapshot(),
    {
        &self.tasks_state
    }

    /// Whether a change has been made since the store was last written out.
    pub fn save_pending(&self) -> (pending: bool)
        ensures
            pending == self@.save_pending,
    {
        self.save_pending
    }

    /// The identifier that the next created task receives.
    pub fn next_id(&self) -> (id: u64)
        ensures
            id == self@.next_id,
    {
        self.tasks_state.next_valid_id
    }

    /// Decides where the store is written now: the persistence target, if
    /// one is configured. The caller writes [`TaskManager::state`] there.
    /// Afterwards no change is pending.
    pub fn save(&mut self) -> (target: Option<String>)
        ensures
            final(self)@ == (StoreView { save_pending: false, ..old(self)@ }),
            match target {
                Some(p) => old(self)@.target == Some(p@),
                None => old(self)@.target is None,
            },
    {
        self.save_pending = false;
        match &self.file_path_opt {
            Some(p) => Some(p.clone()),
            None => None,
        }
    }

    /// Creates a task without a parent. The counter advances whether or not
    /// the task is accepted; the task is accepted if and only if `state` is
    /// a valid state.
    pub fn add_task(&mut self, title: String, state: String, description: String) -> (id: Option<
        TaskId,
    >)
        requires
            old(self)@.next_id < u64::MAX,
        ensures
            final(self)@ == old(self)@.with_task(title@, state@, description@, None),
            id == if old(self)@.accepts(state@, None) {
                Some(TaskId(old(self)@.next_id))
            } else {
                None
            },
    {
        self.create_task(title, state, description, None)
    }

    /// Creates a task under `parent_task`. The counter advances whether or
    /// not the task is accepted; the task is accepted if and only if `state`
    /// is a valid state and the parent exists, and then the new identifier
    /// is appended to the children of the parent.
    pub fn add_task_with_parent(
        &mut self,
        title: String,
        state: String,
        description: String,
        parent_task: &TaskId,
    ) -> (id: Option<TaskId>)
        requires
            old(self)@.next_id < u64::MAX,
        ensures
            final(self)@ == old(self)@.with_task(
                title@,
                state@,
                description@,
                Some(parent_task.0),
            ),
            id == if old(self)@.accepts(state@, Some(parent_task.0)) {
                Some(TaskId(old(self)@.next_id))
            } else {
                None
            },
    {
        self.create_task(title, state, description, Some(*parent_task))
    }

    fn create_task(
        &mut self,
        title: String,
        state: String,
        description: String,
        parent: Option<TaskId>,
    ) -> (id: Option<TaskId>)
        requires
            old(self)@.next_id < u64::MAX,
        ensures
            final(self)@ == old(self)@.with_task(
                title@,
                state@,
                description@,
                match parent {
                    Some(p) => Some(p.0),
                    None => None,
                },
            ),
            id == if old(self)@.accepts(
                state@,
                match parent {
                    Some(p) => Some(p.0),
                    None => None,
                },
            ) {
                Some(TaskId(old(self)@.next_id))
            } else {
                None
            },
    {
        let new_task = Task {
            id: TaskId(self.tasks_state.next_valid_id),
            title,
            state,
            description,
            parent_task: parent,
            child_tasks: Vec::new(),
        };
        let task_id = new_task.id;
        self.tasks_state.next_valid_id += 1;
        if !self.is_task_valid(&new_task) {
            return None;
        }
        let ghost before = self.tasks_state.tasks@;
        if let Some(p) = parent {
            match self.tasks_state.tasks.remove(&p.0) {
                Some(parent_entry) => {
                    let mut parent_entry = parent_entry;
                    parent_entry.child_tasks.push(task_id);
                    self.tasks_state.tasks.insert(p.0, parent_entry);
                    assert(task_views(self.tasks_state.tasks@) =~= StoreView::linked(
                        task_views(before),
                        Some(p.0),
                        task_id.0,
                    )) by {
                        assert(raw_ids(before[p.0].child_tasks@.push(task_id)) =~= raw_ids(
                            before[p.0].child_tasks@,
                        ).push(task_id.0));
                    }
                },
                None => {
                    assert(self.tasks_state.tasks@ =~= before);
                    return None;
                },
            }
        }
        let ghost linked = self.tasks_state.tasks@;
        assert(new_task@.children =~= Seq::empty());
        self.tasks_state.tasks.insert(task_id.0, new_task);
        self.save_pending = true;
        assert(task_views(self.tasks_state.tasks@) =~= task_views(linked).insert(
            task_id.0,
            new_task@,
        ));
        Some(task_id)
    }

    /// The task stored under `task_id`, if there is one.
    pub fn find_task(&self, task_id: TaskId) -> (found: Option<&Task>)
        ensures
            match found {
                Some(t) => self@.tasks.contains_key(task_id.0) && t@ == self@.tasks[task_id.0],
                None => !self@.tasks.contains_key(task_id.0),
            },
    {
        self.tasks_state.tasks.get(&task_id.0)
    }

    /// Every task of the store, each listed once, in no particular order.
    pub fn get_tasks(&self) -> (tasks: Vec<&Task>)
        ensures
            lists_each_once(borrowed_task_views(tasks@), self@.tasks),
    {
        let mut tasks: Vec<&Task> = Vec::new();
        let ghost all = self.tasks_state.tasks.iter().remaining();
        let ghost mut keys: Seq<u64> = Seq::empty();
        for entry in it: self.tasks_state.tasks.iter()
            invariant
                it.seq() == all,
                tasks.len() == it.index(),
                keys.len() == it.index(),
                forall|j: int| 0 <= j < it.index() ==> #[trigger] keys[j] == *all[j].0,
                forall|j: int| 0 <= j < it.index() ==> *#[trigger] tasks[j] == *all[j].1,
        {
            proof {
                keys = keys.push(*entry.0);
            }
            tasks.push(entry.1);
        }
        proof {
            let stored = self.tasks_state.tasks@;
            let listed = borrowed_task_views(tasks@);
            assert(keys.len() == all.len());
            assert(all.no_duplicates());
            assert forall|i: int, j: int|
                0 <= i < keys.len() && 0 <= j < keys.len() && i != j implies keys[i] != keys[j] by {
                assert(stored.contains_key(*all[i].0) && stored[*all[i].0] == *all[i].1);
                assert(stored.contains_key(*all[j].0) && stored[*all[j].0] == *all[j].1);
                if keys[i] == keys[j] {
                    assert(all[i] == all[j]);
                }
            }
            assert forall|k: u64| keys.to_set().contains(k) <==> stored.dom().contains(k) by {
                if keys.to_set().contains(k) {
                    let i = choose|i: int| 0 <= i < keys.len() && keys[i] == k;
                    assert(stored.contains_key(*all[i].0));
                }
                if stored.contains_key(k) {
                    assert(all.contains((&k, &stored[k])));
                    let i = choose|i: int| 0 <= i < all.len() && all[i] == (&k, &stored[k]);
                    assert(keys[i] == k);
                }
            }
            assert(keys.to_set() =~= self@.tasks.dom());
            assert forall|i: int| 0 <= i < keys.len() implies listed[i] == self@.tasks[keys[i]] by {
                assert(stored.contains_key(*all[i].0) && stored[*all[i].0] == *all[i].1);
            }
        }
        tasks
    }

    /// A store holds finitely many tasks.
    pub proof fn lemma_tasks_are_finite(&self)
        ensures
            self@.tasks.dom().finite(),
    {
        assert(task_views(self.tasks_state.tasks@).dom() =~= self.tasks_state.tasks@.dom());
    }

    /// The number of tasks in the store.
    pub fn task_count(&self) -> (count: usize)
        ensures
            self@.tasks.dom().finite(),
            count == self@.tasks.dom().len(),
    {
        assert(task_views(self.tasks_state.tasks@).dom() =~= self.tasks_state.tasks@.dom());
        self.tasks_state.tasks.len()
    }

    /// Whether the state of `task` is one of the valid states.
    pub fn is_task_valid(&self, task: &Task) -> (valid: bool)
        ensures
            valid == self@.valid_states.contains(task@.state),
    {
        contains_state(&self.tasks_state.valid_states, &task.state)
    }
}

} // verus!
