use std::collections::HashMap;
use task_tree::task::{Task, TaskId};
use task_tree::task_manager::{TaskManager, TasksState};

fn names(manager: &TaskManager) -> Vec<String> {
    manager.get_states().clone()
}

fn empty_store() -> TaskManager {
    TaskManager::new(None)
}

#[test]
fn new_store_is_empty() {
    let manager = empty_store();
    assert_eq!(manager.get_states().len(), 0);
    assert_eq!(manager.get_tasks().len(), 0);
    assert_eq!(manager.task_count(), 0);
    assert_eq!(manager.next_id(), 0);
    assert_eq!(manager.save_pending(), false);
}

#[test]
fn initialize_without_snapshot_seeds_default_states() {
    let mut manager = empty_store();
    manager.initialize(None);
    assert_eq!(
        names(&manager),
        vec![
            String::from("Open"),
            String::from("Selected for development"),
            String::from("In progress"),
            String::from("Done"),
        ]
    );
    assert_eq!(manager.get_tasks().len(), 0);
    assert_eq!(manager.next_id(), 0);
}

#[test]
fn initialize_keeps_states_that_are_there() {
    let mut manager = empty_store();
    manager.add_state(String::from("Done"));
    manager.initialize(None);
    assert_eq!(
        names(&manager),
        vec![
            String::from("Done"),
            String::from("Open"),
            String::from("Selected for development"),
            String::from("In progress"),
        ]
    );
}

#[test]
fn add_state_rejects_duplicates_and_keeps_order() {
    let mut manager = empty_store();
    assert_eq!(manager.add_state(String::from("b")), true);
    assert_eq!(manager.add_state(String::from("a")), true);
    assert_eq!(manager.add_state(String::from("b")), false);
    assert_eq!(manager.add_state(String::from("c")), true);
    assert_eq!(manager.add_state(String::from("a")), false);
    assert_eq!(
        names(&manager),
        vec![String::from("b"), String::from("a"), String::from("c")]
    );
}

#[test]
fn invalid_state_changes_no_task_but_advances_counter() {
    let mut manager = empty_store();
    manager.add_state(String::from("Open"));
    let parent = manager
        .add_task(String::from("p"), String::from("Open"), String::from("d"))
        .unwrap();
    assert_eq!(manager.next_id(), 1);
    let refused = manager.add_task(String::from("t"), String::from("Nope"), String::from("d"));
    assert_eq!(refused, None);
    let refused = manager.add_task_with_parent(
        String::from("t"),
        String::from("Nope"),
        String::from("d"),
        &parent,
    );
    assert_eq!(refused, None);
    assert_eq!(manager.next_id(), 3);
    assert_eq!(manager.task_count(), 1);
    assert_eq!(manager.find_task(parent).unwrap().child_tasks.len(), 0);
    let next = manager.add_task(String::from("t"), String::from("Open"), String::from("d"));
    assert_eq!(next, Some(TaskId(3)));
}

#[test]
fn child_is_linked_to_existing_parent() {
    let mut manager = empty_store();
    manager.add_state(String::from("Open"));
    let parent = manager
        .add_task(String::from("p"), String::from("Open"), String::from("d"))
        .unwrap();
    let first = manager
        .add_task_with_parent(String::from("a"), String::from("Open"), String::from("d"), &parent)
        .unwrap();
    let second = manager
        .add_task_with_parent(String::from("b"), String::from("Open"), String::from("e"), &parent)
        .unwrap();
    let stored = manager.find_task(second).unwrap();
    assert_eq!(stored.id, second);
    assert_eq!(stored.title, "b");
    assert_eq!(stored.state, "Open");
    assert_eq!(stored.description, "e");
    assert_eq!(stored.parent_task, Some(parent));
    assert_eq!(stored.child_tasks.len(), 0);
    assert_eq!(manager.find_task(parent).unwrap().child_tasks, vec![first, second]);
    assert_eq!(manager.find_task(parent).unwrap().parent_task, None);
}

#[test]
fn missing_parent_fails_like_invalid_state() {
    let mut manager = empty_store();
    manager.add_state(String::from("Open"));
    let created = manager.add_task_with_parent(
        String::from("a"),
        String::from("Open"),
        String::from("d"),
        &TaskId(7),
    );
    assert_eq!(created, None);
    assert_eq!(manager.task_count(), 0);
    assert_eq!(manager.next_id(), 1);
    assert!(manager.find_task(TaskId(0)).is_none());
}

#[test]
fn milk_scenario() {
    let mut manager = empty_store();
    manager.add_state(String::from("Open"));
    manager.add_state(String::from("Done"));
    let first = manager.add_task(String::from("Buy milk"), String::from("Open"), String::from("2%"));
    assert_eq!(first, Some(TaskId(0)));
    let second = manager.add_task_with_parent(
        String::from("Pour milk"),
        String::from("Open"),
        String::from("into bowl"),
        &TaskId(0),
    );
    assert_eq!(second, Some(TaskId(1)));
    assert_eq!(manager.find_task(TaskId(0)).unwrap().child_tasks, vec![TaskId(1)]);
    assert_eq!(manager.find_task(TaskId(1)).unwrap().parent_task, Some(TaskId(0)));
}

#[test]
fn get_tasks_lists_each_task_once() {
    let mut manager = empty_store();
    manager.add_state(String::from("Open"));
    for title in ["a", "b", "c", "d"] {
        manager.add_task(String::from(title), String::from("Open"), String::from("x"));
    }
    let mut ids: Vec<u64> = manager.get_tasks().iter().map(|t| t.id.0).collect();
    ids.sort();
    assert_eq!(ids, vec![0, 1, 2, 3]);
}

#[test]
fn is_task_valid_goes_by_the_state() {
    let mut manager = empty_store();
    manager.add_state(String::from("Open"));
    let task = |state: &str| Task {
        id: TaskId(9),
        title: String::from("t"),
        state: String::from(state),
        description: String::new(),
        parent_task: None,
        child_tasks: Vec::new(),
    };
    assert_eq!(manager.is_task_valid(&task("Open")), true);
    assert_eq!(manager.is_task_valid(&task("open")), false);
}

#[test]
fn mutations_ask_for_a_save() {
    let mut manager = TaskManager::new(Some(String::from("tasks.json")));
    assert_eq!(manager.save_pending(), false);
    manager.add_state(String::from("Open"));
    assert_eq!(manager.save_pending(), true);
    assert_eq!(manager.save(), Some(String::from("tasks.json")));
    assert_eq!(manager.save_pending(), false);
    manager.add_state(String::from("Open"));
    assert_eq!(manager.save_pending(), false);
    manager.add_task(String::from("t"), String::from("Nope"), String::from("d"));
    assert_eq!(manager.save_pending(), false);
    manager.add_task(String::from("t"), String::from("Open"), String::from("d"));
    assert_eq!(manager.save_pending(), true);
}

#[test]
fn save_without_target_names_none() {
    let mut manager = empty_store();
    manager.add_state(String::from("Open"));
    assert_eq!(manager.save(), None);
    assert_eq!(manager.save_pending(), false);
}

#[test]
fn snapshot_is_taken_over_when_a_target_is_configured() {
    let mut tasks = HashMap::new();
    tasks.insert(
        4,
        Task {
            id: TaskId(4),
            title: String::from("kept"),
            state: String::from("Custom"),
            description: String::from("d"),
            parent_task: None,
            child_tasks: Vec::new(),
        },
    );
    let stored = TasksState {
        tasks,
        valid_states: vec![String::from("Custom")],
        next_valid_id: 5,
    };
    let mut manager = TaskManager::new(Some(String::from("tasks.json")));
    manager.initialize(Some(stored));
    assert_eq!(names(&manager), vec![String::from("Custom")]);
    assert_eq!(manager.next_id(), 5);
    assert_eq!(manager.find_task(TaskId(4)).unwrap().title, "kept");
    assert_eq!(manager.state().next_valid_id, 5);
    assert_eq!(manager.state().tasks.len(), 1);
}

#[test]
fn snapshot_is_ignored_without_a_target() {
    let stored = TasksState {
        tasks: HashMap::new(),
        valid_states: vec![String::from("Custom")],
        next_valid_id: 5,
    };
    let mut manager = empty_store();
    manager.initialize(Some(stored));
    assert_eq!(manager.get_states().len(), 4);
    assert_eq!(manager.next_id(), 0);
}

#[test]
fn task_clone_copies_every_field() {
    let task = Task {
        id: TaskId(3),
        title: String::from("t"),
        state: String::from("s"),
        description: String::from("d"),
        parent_task: Some(TaskId(1)),
        child_tasks: vec![TaskId(5), TaskId(6)],
    };
    let copy = task.clone();
    assert_eq!(copy.id, TaskId(3));
    assert_eq!(copy.title, "t");
    assert_eq!(copy.state, "s");
    assert_eq!(copy.description, "d");
    assert_eq!(copy.parent_task, Some(TaskId(1)));
    assert_eq!(copy.child_tasks, vec![TaskId(5), TaskId(6)]);
}
