//! The menu that shows the tasks as a tree and starts the creation of new
//! ones.

use crate::bottom_bar::{bar_entry, BottomBar, BottomBarAction, BottomBarEntry};
use crate::key::Key;
use crate::menu::{outcome_of, MenuEvent};
use crate::stateful_list::{selection_after_next, selection_after_previous, StatefulList};
use crate::task::{TaskId, TaskView};
use crate::task_manager::{borrowed_task_views, TaskManager};
use crate::tree_view::{assemble_tree, at_depth, row_views, rows_of, walk, TaskRow, TaskUIView};
use std::io;
use vstd::prelude::*;
use vstd::string::StringExecFns;

verus! {

/// Whether `roots` holds the identifiers of the tasks of `tasks`, one for
/// the task of each key, in some order.
pub open spec fn lists_the_ids(roots: Seq<u64>, tasks: Map<u64, TaskView>) -> bool {
    exists|keys: Seq<u64>|
        {
            &&& keys.no_duplicates()
            &&& keys.to_set() == tasks.dom()
            &&& #[trigger] keys.len() == roots.len()
            &&& forall|i: int| 0 <= i < keys.len() ==> roots[i] == tasks[keys[i]].id
        }
}

/// Whether `rows` is a tree view of `tasks`: the walk from the identifiers
/// of all tasks, taken in some order as roots.
pub open spec fn is_tree_view(rows: Seq<TaskRow>, tasks: Map<u64, TaskView>) -> bool {
    exists|roots: Seq<u64>|
        #![trigger lists_the_ids(roots, tasks)]
        {
            &&& lists_the_ids(roots, tasks)
            &&& rows == rows_of(tasks, walk(tasks, at_depth(roots, 0), Set::empty()).order)
        }
}

/// The widest indent that a row can have.
pub const MAX_INDENT: u16 = 0xffff;

/// The columns by which a row at `depth` is indented: four for each level,
/// as far as the width of a terminal goes.
pub open spec fn indent_of(depth: nat) -> u16 {
    if depth * 4 > MAX_INDENT {
        MAX_INDENT
    } else {
        (depth * 4) as u16
    }
}

/// A text of `count` blanks.
pub open spec fn blanks(count: nat) -> Seq<char> {
    Seq::new(count, |i: int| ' ')
}

/// What stands in the indent of a row: nothing at depth 0; below that the
/// corner that ties the row to its parent, at the right end of the indent.
pub open spec fn connector_of(depth: nat) -> Seq<char> {
    if depth == 0 {
        Seq::empty()
    } else {
        blanks((indent_of(depth) - 2) as nat) + "\u{2514}\u{2500}"@
    }
}

/// The text of a row: the title of its task behind two columns, the second
/// of which holds the marker of the cursor.
pub open spec fn label_of(title: Seq<char>, under_cursor: bool) -> Seq<char> {
    if under_cursor {
        " >"@ + title
    } else {
        "  "@ + title
    }
}

/// What the menu asks of the loop that drives it after a key.
pub enum MainMenuStep {
    /// The answer of the menu to the key.
    Answer(Option<MenuEvent<()>>),
    /// The menu that creates a task is to run now, nested in this one, with
    /// the given parent for the new task. Its result goes to
    /// [`MainMenu::on_nested_result`].
    CreateTask(Option<TaskId>),
}

/// The tree of tasks with a cursor.
pub struct MainMenu {
    task_list: StatefulList<TaskUIView>,
    bottom_bar: BottomBar,
}

/// Mathematical model of a [`MainMenu`].
pub struct MainMenuView {
    pub rows: Seq<TaskRow>,
    pub selected: Option<usize>,
    pub bar: Seq<BottomBarEntry>,
}

/// The bar of the menu: a new task, a new task under the selected one, and
/// the way out.
pub open spec fn main_menu_bar() -> Seq<BottomBarEntry> {
    seq![
        bar_entry(Key::Char('n'), BottomBarAction::CreateTask),
        bar_entry(Key::Char('s'), BottomBarAction::CreateTaskWithParent),
        bar_entry(Key::Esc, BottomBarAction::Exit),
    ]
}

impl MainMenuView {
    /// The task under the cursor, if the cursor is on a row.
    pub open spec fn selected_task(self) -> Option<TaskId> {
        match self.selected {
            Some(i) if i < self.rows.len() => Some(TaskId(self.rows[i as int].task.id)),
            _ => None,
        }
    }

    /// Whether `key` asks for a new task without a parent.
    pub open spec fn asks_for_task(key: Key) -> bool {
        key == Key::Char('n') || key == Key::Char('N')
    }

    /// Whether `key` asks for a new task under the selected one.
    pub open spec fn asks_for_subtask(key: Key) -> bool {
        key == Key::Char('s') || key == Key::Char('S')
    }

    /// The cursor after `key`: `Up` and `Down` move it around the list.
    pub open spec fn cursor_after(self, key: Key) -> Option<usize> {
        match key {
            Key::Up => selection_after_previous(self.selected, self.rows.len()),
            Key::Down => selection_after_next(self.selected, self.rows.len()),
            _ => self.selected,
        }
    }
}

/// What the menu answers once the menu that creates a task has finished:
/// a created task is reported as a success, a failure of the nested menu is
/// handed on, and a menu that was left without a task is not reported.
pub open spec fn answer_to_nested(result: Result<Option<TaskId>, io::Error>) -> Option<
    MenuEvent<()>,
> {
    match result {
        Ok(Some(_)) => Some(MenuEvent::MenuExecutionResult(Ok(()))),
        Ok(None) => None,
        Err(error) => Some(MenuEvent::MenuExecutionResult(Err(error))),
    }
}

/// A nested menu that quits with a value ends its own loop with exactly
/// that value. What the menu above it answers to that value does not end
/// the loop of the menu above: it goes on where it was. Only a failure of
/// the nested menu ends the loop above, with that failure.
pub proof fn lemma_nested_result_reaches_parent(value: Option<TaskId>, error: io::Error)
    ensures
        outcome_of(Some(MenuEvent::Quit(value))) == Some(
            Ok::<Option<TaskId>, io::Error>(value),
        ),
        outcome_of(answer_to_nested(Ok(value))) is None,
        outcome_of(answer_to_nested(Err(error))) == Some(Err::<(), io::Error>(error)),
{
}

impl View for MainMenu {
    type V = MainMenuView;

    closed spec fn view(&self) -> MainMenuView {
        MainMenuView {
            rows: row_views(self.task_list.items@),
            selected: self.task_list.selection(),
            bar: self.bottom_bar@,
        }
    }
}

impl MainMenu {
    /// A menu that shows no tasks yet.
    pub fn new() -> (menu: MainMenu)
        ensures
            menu@.rows == Seq::<TaskRow>::empty(),
            menu@.selected is None,
            menu@.bar == main_menu_bar(),
    {
        let mut bottom_bar = BottomBar::new();
        bottom_bar.add_action(Key::Char('n'), BottomBarAction::CreateTask);
        bottom_bar.add_action(Key::Char('s'), BottomBarAction::CreateTaskWithParent);
        bottom_bar.add_action(Key::Esc, BottomBarAction::Exit);
        let menu = MainMenu { task_list: StatefulList::new(), bottom_bar };
        assert(menu@.rows =~= Seq::<TaskRow>::empty());
        assert(menu@.bar =~= main_menu_bar());
        menu
    }

    /// The rows on display and the cursor.
    pub fn task_list(&self) -> (list: &StatefulList<TaskUIView>)
        ensures
            row_views(list.items@) == self@.rows,
            list.selection() == self@.selected,
    {
        &self.task_list
    }

    /// The bar that names the keys of the menu.
    pub fn bottom_bar(&self) -> (bar: &BottomBar)
        ensures
            bar@ == self@.bar,
    {
        &self.bottom_bar
    }

    /// The number of rows.
    pub fn row_count(&self) -> (count: usize)
        ensures
            count == self@.rows.len(),
    {
        self.task_list.items.len()
    }

    /// The columns by which the row at `index` is indented.
    pub fn row_indent(&self, index: usize) -> (indent: u16)
        requires
            index < self@.rows.len(),
        ensures
            indent == indent_of(self@.rows[index as int].depth),
    {
        let depth = self.task_list.items[index].depth;
        if depth > 16383 {
            MAX_INDENT
        } else {
            (depth * 4) as u16
        }
    }

    /// What stands in the indent of the row at `index`.
    pub fn row_connector(&self, index: usize) -> (connector: String)
        requires
            index < self@.rows.len(),
        ensures
            connector@ == connector_of(self@.rows[index as int].depth),
    {
        let indent = self.row_indent(index);
        let mut connector = String::new();
        if indent == 0 {
            return connector;
        }
        let mut i: u16 = 2;
        assert(connector@ =~= blanks(0));
        while i < indent
            invariant
                2 <= i <= indent,
                connector@ == blanks((i - 2) as nat),
            decreases indent - i,
        {
            connector.push(' ');
            i = i + 1;
            assert(connector@ =~= blanks((i - 2) as nat));
        }
        connector.append("\u{2514}\u{2500}");
        connector
    }

    /// The text of the row at `index`.
    pub fn row_text(&self, index: usize) -> (text: String)
        requires
            index < self@.rows.len(),
        ensures
            text@ == label_of(
                self@.rows[index as int].task.title,
                self@.selected == Some(index),
            ),
    {
        let under_cursor = match self.task_list.selected() {
            Some(i) => i == index,
            None => false,
        };
        let mut text = if under_cursor {
            String::from_str(" >")
        } else {
            String::from_str("  ")
        };
        text.append(self.task_list.items[index].task.title.as_str());
        text
    }

    /// Builds the rows anew from the store: a tree view of its tasks, with
    /// the cursor on the first row.
    pub fn refresh_tasks(&mut self, task_manager: &TaskManager)
        ensures
            is_tree_view(final(self)@.rows, task_manager@.tasks),
            final(self)@.selected == Some(0usize),
            final(self)@.bar == old(self)@.bar,
    {
        let tasks = task_manager.get_tasks();
        let mut roots: Vec<TaskId> = Vec::new();
        let mut i: usize = 0;
        while i < tasks.len()
            invariant
                i <= tasks.len(),
                roots.len() == i,
                forall|j: int| 0 <= j < i ==> (#[trigger] roots[j]).0 == tasks[j]@.id,
            decreases tasks.len() - i,
        {
            roots.push(tasks[i].id);
            i = i + 1;
        }
        let rows = assemble_tree(task_manager, &roots);
        proof {
            let ids = crate::task::raw_ids(roots@);
            let listed = borrowed_task_views(tasks@);
            let keys = choose|keys: Seq<u64>|
                {
                    &&& keys.no_duplicates()
                    &&& keys.to_set() == task_manager@.tasks.dom()
                    &&& #[trigger] keys.len() == listed.len()
                    &&& forall|i: int|
                        0 <= i < keys.len() ==> listed[i] == task_manager@.tasks[keys[i]]
                };
            assert(keys.len() == ids.len());
            assert forall|i: int| 0 <= i < keys.len() implies ids[i]
                == task_manager@.tasks[keys[i]].id by {
                assert(listed[i] == task_manager@.tasks[keys[i]]);
                assert(roots[i].0 == tasks[i]@.id);
            }
            assert(lists_the_ids(ids, task_manager@.tasks));
        }
        self.task_list = StatefulList::with_items(rows);
    }

    /// Takes up work: the rows are built from the store.
    pub fn initialize(&mut self, task_manager: &TaskManager)
        ensures
            is_tree_view(final(self)@.rows, task_manager@.tasks),
            final(self)@.selected == Some(0usize),
            final(self)@.bar == old(self)@.bar,
    {
        self.refresh_tasks(task_manager);
    }

    /// Whether the cursor is on a row, so that a task can be created under
    /// the task of that row.
    pub fn has_selected_task(&self) -> (selected: bool)
        ensures
            selected == self@.selected_task() is Some,
    {
        match self.task_list.selected() {
            Some(i) => i < self.task_list.items.len(),
            None => false,
        }
    }

    /// Whether the menu can handle `key`: every key but the one that asks
    /// for a subtask while the cursor is on no row.
    pub fn accepts_key(&self, key: Key) -> (accepted: bool)
        ensures
            accepted == (MainMenuView::asks_for_subtask(key) ==> self@.selected_task() is Some),
    {
        match key {
            Key::Char(c) => !(c == 's' || c == 'S') || self.has_selected_task(),
            _ => true,
        }
    }

    /// Handles a key. `Up` and `Down` move the cursor. `n` asks for the
    /// menu that creates a task, `s` for the same with the selected task as
    /// parent; upper case does the same. `Esc` leaves the menu. Any other
    /// key does nothing.
    pub fn on_key_pressed(&mut self, key: Key) -> (step: MainMenuStep)
        requires
            MainMenuView::asks_for_subtask(key) ==> old(self)@.selected_task() is Some,
        ensures
            final(self)@ == (MainMenuView {
                selected: old(self)@.cursor_after(key),
                ..old(self)@
            }),
            step == if MainMenuView::asks_for_task(key) {
                MainMenuStep::CreateTask(None)
            } else if MainMenuView::asks_for_subtask(key) {
                MainMenuStep::CreateTask(old(self)@.selected_task())
            } else if key == Key::Esc {
                MainMenuStep::Answer(Some(MenuEvent::Quit(())))
            } else {
                MainMenuStep::Answer(None)
            },
    {
        match key {
            Key::Up => self.task_list.previous(),
            Key::Down => self.task_list.next(),
            Key::Char(c) => {
                if c == 'n' || c == 'N' {
                    return MainMenuStep::CreateTask(None);
                }
                if c == 's' || c == 'S' {
                    let selected_index = self.task_list.selected().unwrap();
                    let parent_task = self.task_list.items[selected_index].task.id;
                    return MainMenuStep::CreateTask(Some(parent_task));
                }
            },
            Key::Esc => {
                return MainMenuStep::Answer(Some(MenuEvent::Quit(())));
            },
            _ => (),
        }
        MainMenuStep::Answer(None)
    }

    /// Takes the result of the menu that created a task, once that menu has
    /// finished. If a task was created the rows are built anew and the
    /// success is reported; a failure of the nested menu is handed on; if
    /// the menu was left without a task nothing changes.
    pub fn on_nested_result(
        &mut self,
        task_manager: &TaskManager,
        result: Result<Option<TaskId>, io::Error>,
    ) -> (answer: Option<MenuEvent<()>>)
        ensures
            answer == answer_to_nested(result),
            match result {
                Ok(Some(_)) => {
                    &&& is_tree_view(final(self)@.rows, task_manager@.tasks)
                    &&& final(self)@.selected == Some(0usize)
                    &&& final(self)@.bar == old(self)@.bar
                },
                _ => final(self)@ == old(self)@,
            },
    {
        match result {
            Ok(created_task_id_opt) => {
                if created_task_id_opt.is_some() {
                    self.refresh_tasks(task_manager);
                    return Some(MenuEvent::MenuExecutionResult(Ok(())));
                }
            },
            Err(e) => {
                return Some(MenuEvent::MenuExecutionResult(Err(e)));
            },
        }
        None
    }

    /// The menu does not follow time.
    pub fn update(&mut self, _elapsed_time: std::time::Duration)
        ensures
            final(self)@ == old(self)@,
    {
    }
}

} // verus!
