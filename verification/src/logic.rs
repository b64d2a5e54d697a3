//! The application state that the menus share.

use crate::task_manager::{StoreView, TaskManager, TasksState};
use std::io;
use vstd::prelude::*;
use vstd::string::StringExecFns;

verus! {

/// The name of the file in which the application keeps its tasks.
pub open spec fn state_file_name() -> Seq<char> {
    "state.json"@
}

/// The name of the file in which the application keeps its tasks.
pub fn state_file() -> (name: String)
    ensures
        name@ == state_file_name(),
{
    String::from_str("state.json")
}

/// What the menus work on: the task store.
pub struct Logic {
    pub task_manager: TaskManager,
}

impl Logic {
    /// The state at start-up: a store that is kept in the state file and
    /// starts from `stored`, the snapshot that was read from that file, or
    /// from the default states if there is none.
    pub fn new(stored: Option<TasksState>) -> (logic: Logic)
        ensures
            logic.task_manager@ == StoreView::empty(Some(state_file_name())).initialized(
                match stored {
                    Some(s) => Some(s@),
                    None => None,
                },
            ),
    {
        let mut task_manager = TaskManager::new(Some(state_file()));
        task_manager.initialize(stored);
        Logic { task_manager }
    }
}

/// The application: the owner of the state that the menus share.
pub struct Application {
    logic: Logic,
}

impl Application {
    /// The state of the application.
    pub closed spec fn logic(&self) -> Logic {
        self.logic
    }

    /// The application at start-up; see [`Logic::new`]. Setting it up does
    /// not fail.
    pub fn new(stored: Option<TasksState>) -> (application: Result<Application, io::Error>)
        ensures
            application matches Ok(a) && a.logic().task_manager@ == StoreView::empty(
                Some(state_file_name()),
            ).initialized(
                match stored {
                    Some(s) => Some(s@),
                    None => None,
                },
            ),
    {
        Ok(Application { logic: Logic::new(stored) })
    }

    /// The state of the application, for the menus to work on.
    pub fn logic_mut(&mut self) -> (logic: &mut Logic)
        ensures
            *logic == old(self).logic(),
            final(self).logic() == *final(logic),
    {
        &mut self.logic
    }
}

} // verus!
