//! Tasks and their identifiers.

use vstd::prelude::*;

verus! {

/// Identifier of a task. Identifiers are handed out by the task store in
/// increasing order and are never reused.
#[derive(Clone, Copy, Debug, PartialEq, Eq, PartialOrd, Ord, Hash, Structural)]
pub struct TaskId(pub u64);

/// A titled unit of work with a workflow state, an optional parent and its
/// children in insertion order.
#[derive(Debug)]
pub struct Task {
    pub id: TaskId,
    pub title: String,
    pub state: String,
    pub description: String,
    pub parent_task: Option<TaskId>,
    pub child_tasks: Vec<TaskId>,
}

/// Mathematical model of a [`Task`].
pub struct TaskView {
    pub id: u64,
    pub title: Seq<char>,
    pub state: Seq<char>,
    pub description: Seq<char>,
    pub parent: Option<u64>,
    pub children: Seq<u64>,
}

/// The raw identifiers behind a sequence of [`TaskId`]s.
pub open spec fn raw_ids(ids: Seq<TaskId>) -> Seq<u64> {
    ids.map_values(|t: TaskId| t.0)
}

impl View for Task {
    type V = TaskView;

    open spec fn view(&self) -> TaskView {
        TaskView {
            id: self.id.0,
            title: self.title@,
            state: self.state@,
            description: self.description@,
            parent: match self.parent_task {
                Some(p) => Some(p.0),
                None => None,
            },
            children: raw_ids(self.child_tasks@),
        }
    }
}

impl Clone for Task {
    /// A copy with the same fields.
    fn clone(&self) -> (copy: Task)
        ensures
            copy@ == self@,
            copy.id == self.id,
            copy.parent_task == self.parent_task,
            copy.child_tasks@ == self.child_tasks@,
    {
        let mut children: Vec<TaskId> = Vec::new();
        let mut i: usize = 0;
        while i < self.child_tasks.len()
            invariant
                i <= self.child_tasks.len(),
                children@ == self.child_tasks@.subrange(0, i as int),
            decreases self.child_tasks.len() - i,
        {
            children.push(self.child_tasks[i]);
            i = i + 1;
        }
        assert(children@ == self.child_tasks@);
        Task {
            id: self.id,
            title: self.title.clone(),
            state: self.state.clone(),
            description: self.description.clone(),
            parent_task: self.parent_task,
            child_tasks: children,
        }
    }
}

} // verus!
