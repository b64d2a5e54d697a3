//! A plain list of the tasks of a store with a cursor.

use crate::stateful_list::{selection_after_next, selection_after_previous, StatefulList};
use crate::task::{Task, TaskView};
use crate::task_manager::{borrowed_task_views, lists_each_once, TaskManager};
use vstd::prelude::*;

verus! {

/// The tasks of a store as a flat list, with the cursor of the list.
pub struct UIState {
    pub task_list: StatefulList<Task>,
}

/// The models of a list of tasks.
pub open spec fn task_list_views(tasks: Seq<Task>) -> Seq<TaskView> {
    tasks.map_values(|t: Task| t@)
}

impl UIState {
    /// Copies of all tasks of the store, each once, with the cursor on the
    /// first position.
    pub fn new(task_manager: &TaskManager) -> (state: UIState)
        ensures
            lists_each_once(task_list_views(state.task_list.items@), task_manager@.tasks),
            state.task_list.selection() == Some(0usize),
    {
        let tasks = task_manager.get_tasks();
        let mut copies: Vec<Task> = Vec::new();
        let mut i: usize = 0;
        while i < tasks.len()
            invariant
                i <= tasks.len(),
                copies.len() == i,
                forall|j: int| 0 <= j < i ==> (#[trigger] copies[j])@ == tasks[j]@,
            decreases tasks.len() - i,
        {
            copies.push(tasks[i].clone());
            i = i + 1;
        }
        assert(task_list_views(copies@) =~= borrowed_task_views(tasks@));
        UIState { task_list: StatefulList::with_items(copies) }
    }

    /// Moves the cursor one task back, around the start.
    pub fn on_up(&mut self)
        ensures
            final(self).task_list.items == old(self).task_list.items,
            final(self).task_list.selection() == selection_after_previous(
                old(self).task_list.selection(),
                old(self).task_list.items@.len(),
            ),
    {
        self.task_list.previous();
    }

    /// Moves the cursor one task on, around the end.
    pub fn on_down(&mut self)
        ensures
            final(self).task_list.items == old(self).task_list.items,
            final(self).task_list.selection() == selection_after_next(
                old(self).task_list.selection(),
                old(self).task_list.items@.len(),
            ),
    {
        self.task_list.next();
    }
}

} // verus!
