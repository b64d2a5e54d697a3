use std::io;
use std::time::Duration;
use task_tree::create_task_menu::CreateTaskMenu;
use task_tree::key::Key;
use task_tree::logic::{state_file, Application, Logic};
use task_tree::main_menu::{MainMenu, MainMenuStep};
use task_tree::menu::{LoopAction, LoopReport, LoopStage, MenuEvent, MenuLoop, MenuPhase};
use task_tree::stateful_list::StatefulList;
use task_tree::task::TaskId;
use task_tree::task_manager::TaskManager;
use task_tree::ui_state::UIState;
use task_tree::widget::{FocusState, FocusableWidget};

fn store() -> TaskManager {
    let mut manager = TaskManager::new(None);
    manager.initialize(None);
    manager
}

fn press(menu: &mut CreateTaskMenu, manager: &mut TaskManager, text: &str) {
    for c in text.chars() {
        assert!(menu.on_key_pressed(Key::Char(c), manager).is_none());
    }
}

fn running_loop<T>() -> MenuLoop {
    let mut menu_loop = MenuLoop::new();
    assert!(matches!(menu_loop.begin::<T>(), Some(LoopAction::Initialize)));
    let action = menu_loop.step::<T>(LoopReport::Initialized, Duration::from_millis(0));
    assert!(matches!(action, LoopAction::Render));
    menu_loop
}

fn failure(text: &str) -> io::Error {
    io::Error::new(io::ErrorKind::Other, text)
}

#[test]
fn loop_goes_from_uninitialized_to_running_to_terminated() {
    let mut menu_loop = MenuLoop::new();
    assert!(menu_loop.current_phase() == MenuPhase::Uninitialized);
    assert!(menu_loop.current_stage() == LoopStage::Uninitialized);
    assert!(matches!(menu_loop.begin::<u8>(), Some(LoopAction::Initialize)));
    assert!(menu_loop.current_phase() == MenuPhase::Uninitialized);
    assert!(menu_loop.begin::<u8>().is_none());
    assert!(menu_loop.current_stage() == LoopStage::Initializing);
    let zero = Duration::from_millis(0);
    assert!(matches!(menu_loop.step::<u8>(LoopReport::Initialized, zero), LoopAction::Render));
    assert!(menu_loop.current_phase() == MenuPhase::Running);
    assert!(menu_loop.begin::<u8>().is_none());
    match menu_loop.step::<u8>(LoopReport::Rendered(Ok(())), Duration::from_millis(10)) {
        LoopAction::Poll(timeout) => assert_eq!(timeout, Duration::from_millis(23)),
        _ => panic!("the loop must wait for an event"),
    }
    assert!(matches!(
        menu_loop.step::<u8>(LoopReport::Polled(Ok(true)), Duration::from_millis(12)),
        LoopAction::Read
    ));
    assert!(matches!(
        menu_loop.step::<u8>(LoopReport::Read(Ok(Some(Key::Char('q')))), zero),
        LoopAction::Dispatch(Key::Char('q'))
    ));
    assert!(menu_loop.current_stage() == LoopStage::Dispatching);
    let action = menu_loop.step(LoopReport::Answered(Some(MenuEvent::Quit(7u8))), zero);
    assert!(matches!(action, LoopAction::Finish(Ok(7))));
    assert!(menu_loop.current_phase() == MenuPhase::Terminated);
    assert!(menu_loop.begin::<u8>().is_none());
    assert_eq!(menu_loop.awaits(&LoopReport::<u8>::Updated), false);
    assert_eq!(menu_loop.awaits(&LoopReport::<u8>::Initialized), false);
}

#[test]
fn loop_follows_time_once_the_tick_is_over() {
    let mut menu_loop = running_loop::<u8>();
    menu_loop.step::<u8>(LoopReport::Rendered(Ok(())), Duration::from_millis(0));
    let action = menu_loop.step::<u8>(LoopReport::Polled(Ok(false)), Duration::from_millis(32));
    assert!(matches!(action, LoopAction::Render));
    match menu_loop.step::<u8>(LoopReport::Rendered(Ok(())), Duration::from_millis(40)) {
        LoopAction::Poll(timeout) => assert_eq!(timeout, Duration::from_millis(0)),
        _ => panic!("the loop must wait for an event"),
    }
    match menu_loop.step::<u8>(LoopReport::Polled(Ok(false)), Duration::from_millis(41)) {
        LoopAction::Update(elapsed) => assert_eq!(elapsed, Duration::from_millis(41)),
        _ => panic!("the menu must follow the time"),
    }
    assert!(menu_loop.current_stage() == LoopStage::Updating);
    assert_eq!(menu_loop.awaits(&LoopReport::<u8>::Updated), true);
    assert_eq!(menu_loop.awaits(&LoopReport::<u8>::Rendered(Ok(()))), false);
    let action = menu_loop.step::<u8>(LoopReport::Updated, Duration::from_millis(0));
    assert!(matches!(action, LoopAction::Render));
}

#[test]
fn events_that_end_nothing_end_the_round() {
    let mut menu_loop = running_loop::<u8>();
    let zero = Duration::from_millis(0);
    menu_loop.step::<u8>(LoopReport::Rendered(Ok(())), zero);
    menu_loop.step::<u8>(LoopReport::Polled(Ok(true)), zero);
    let action = menu_loop.step::<u8>(LoopReport::Read(Ok(None)), zero);
    assert!(matches!(action, LoopAction::Render));
    menu_loop.step::<u8>(LoopReport::Rendered(Ok(())), zero);
    menu_loop.step::<u8>(LoopReport::Polled(Ok(true)), zero);
    menu_loop.step::<u8>(LoopReport::Read(Ok(Some(Key::Up))), zero);
    let action = menu_loop.step::<u8>(LoopReport::Answered(None), zero);
    assert!(matches!(action, LoopAction::Render));
    menu_loop.step::<u8>(LoopReport::Rendered(Ok(())), zero);
    menu_loop.step::<u8>(LoopReport::Polled(Ok(true)), zero);
    menu_loop.step::<u8>(LoopReport::Read(Ok(Some(Key::Up))), zero);
    let answer = Some(MenuEvent::MenuExecutionResult(Ok(())));
    let action = menu_loop.step::<u8>(LoopReport::Answered(answer), Duration::from_millis(33));
    assert!(matches!(action, LoopAction::Update(_)));
    assert!(menu_loop.current_phase() == MenuPhase::Running);
}

#[test]
fn nested_failure_ends_the_loop_with_that_failure() {
    let mut menu_loop = running_loop::<()>();
    let zero = Duration::from_millis(0);
    menu_loop.step::<()>(LoopReport::Rendered(Ok(())), zero);
    menu_loop.step::<()>(LoopReport::Polled(Ok(true)), zero);
    menu_loop.step::<()>(LoopReport::Read(Ok(Some(Key::Char('n')))), zero);
    let answer = Some(MenuEvent::MenuExecutionResult(Err(failure("surface"))));
    match menu_loop.step::<()>(LoopReport::Answered(answer), zero) {
        LoopAction::Finish(Err(e)) => assert_eq!(e.to_string(), "surface"),
        _ => panic!("the failure must end the loop"),
    }
    assert!(menu_loop.current_phase() == MenuPhase::Terminated);
}

#[test]
fn surface_failures_end_the_loop() {
    let zero = Duration::from_millis(0);
    let mut menu_loop = running_loop::<u8>();
    match menu_loop.step::<u8>(LoopReport::Rendered(Err(failure("draw"))), zero) {
        LoopAction::Finish(Err(e)) => assert_eq!(e.to_string(), "draw"),
        _ => panic!("the failure must end the loop"),
    }
    assert!(menu_loop.current_stage() == LoopStage::Terminated);
    let mut menu_loop = running_loop::<u8>();
    menu_loop.step::<u8>(LoopReport::Rendered(Ok(())), zero);
    match menu_loop.step::<u8>(LoopReport::Polled(Err(failure("poll"))), zero) {
        LoopAction::Finish(Err(e)) => assert_eq!(e.to_string(), "poll"),
        _ => panic!("the failure must end the loop"),
    }
    let mut menu_loop = running_loop::<u8>();
    menu_loop.step::<u8>(LoopReport::Rendered(Ok(())), zero);
    menu_loop.step::<u8>(LoopReport::Polled(Ok(true)), zero);
    match menu_loop.step::<u8>(LoopReport::Read(Err(failure("read"))), zero) {
        LoopAction::Finish(Err(e)) => assert_eq!(e.to_string(), "read"),
        _ => panic!("the failure must end the loop"),
    }
}

#[test]
fn loop_waits_for_the_rest_of_the_tick() {
    let menu_loop = MenuLoop::new();
    assert_eq!(menu_loop.poll_timeout(Duration::from_millis(0)), Duration::from_millis(33));
    assert_eq!(menu_loop.poll_timeout(Duration::from_millis(10)), Duration::from_millis(23));
    assert_eq!(menu_loop.poll_timeout(Duration::from_millis(33)), Duration::from_millis(0));
    assert_eq!(menu_loop.poll_timeout(Duration::from_millis(40)), Duration::from_millis(0));
    assert_eq!(menu_loop.tick_due(Duration::from_millis(32)), false);
    assert_eq!(menu_loop.tick_due(Duration::from_micros(32999)), false);
    assert_eq!(menu_loop.tick_due(Duration::from_millis(33)), true);
    assert_eq!(menu_loop.tick_due(Duration::from_millis(1000)), true);
}

#[test]
fn only_quit_and_failure_are_outcomes() {
    assert!(MenuLoop::on_event::<u8>(None).is_none());
    assert!(MenuLoop::on_event::<u8>(Some(MenuEvent::MenuExecutionResult(Ok(())))).is_none());
    assert!(matches!(MenuLoop::on_event(Some(MenuEvent::Quit(3u8))), Some(Ok(3))));
    let answer = Some(MenuEvent::MenuExecutionResult(Err(failure("x"))));
    assert!(matches!(MenuLoop::on_event::<u8>(answer), Some(Err(_))));
}

#[test]
fn create_menu_starts_with_focus_on_the_title() {
    let manager = store();
    let menu = CreateTaskMenu::new(&manager, None);
    assert!(menu.title_input().get_focus_state() == FocusState::Focused);
    assert!(menu.state_input().get_focus_state() == FocusState::NotFocused);
    assert!(menu.description_input().get_focus_state() == FocusState::NotFocused);
    assert!(menu.accept_button().get_focus_state() == FocusState::NotFocused);
    assert_eq!(menu.state_input().get_selected_option(), Some(String::from("Open")));
    assert_eq!(menu.accept_button().label(), "Accept");
    assert_eq!(menu.accept_button().text_alignment(), tui::layout::Alignment::Center);
    assert_eq!(*menu.state_input().direction(), tui::layout::Direction::Horizontal);
    assert_eq!(menu.bottom_bar().text(), "[Enter] Submit | [Esc] Exit");
}

#[test]
fn complete_form_creates_a_task() {
    let mut manager = store();
    let mut menu = CreateTaskMenu::new(&manager, None);
    press(&mut menu, &mut manager, "Buy milk");
    assert!(menu.on_key_pressed(Key::Down, &mut manager).is_none());
    assert!(menu.on_key_pressed(Key::Right, &mut manager).is_none());
    assert!(menu.on_key_pressed(Key::Tab, &mut manager).is_none());
    press(&mut menu, &mut manager, "2%");
    assert!(menu.on_key_pressed(Key::Enter, &mut manager).is_none());
    assert!(menu.on_key_pressed(Key::Down, &mut manager).is_none());
    let event = menu.on_key_pressed(Key::Enter, &mut manager);
    assert!(matches!(event, Some(MenuEvent::Quit(Some(TaskId(0))))));
    let task = manager.find_task(TaskId(0)).unwrap();
    assert_eq!(task.title, "Buy milk");
    assert_eq!(task.state, "Selected for development");
    assert_eq!(task.description, "2%\n");
    assert_eq!(task.parent_task, None);
}

#[test]
fn form_under_a_parent_links_the_task() {
    let mut manager = store();
    manager.add_task(String::from("p"), String::from("Open"), String::from("d"));
    let mut menu = CreateTaskMenu::new(&manager, Some(TaskId(0)));
    press(&mut menu, &mut manager, "t");
    menu.on_key_pressed(Key::Down, &mut manager);
    menu.on_key_pressed(Key::Down, &mut manager);
    press(&mut menu, &mut manager, "d");
    menu.on_key_pressed(Key::Down, &mut manager);
    let event = menu.on_key_pressed(Key::Enter, &mut manager);
    assert!(matches!(event, Some(MenuEvent::Quit(Some(TaskId(1))))));
    assert_eq!(manager.find_task(TaskId(0)).unwrap().child_tasks, vec![TaskId(1)]);
    assert_eq!(manager.find_task(TaskId(1)).unwrap().parent_task, Some(TaskId(0)));
}

#[test]
fn form_under_a_missing_parent_quits_without_a_task() {
    let mut manager = store();
    let mut menu = CreateTaskMenu::new(&manager, Some(TaskId(5)));
    press(&mut menu, &mut manager, "t");
    menu.on_key_pressed(Key::Down, &mut manager);
    menu.on_key_pressed(Key::Down, &mut manager);
    press(&mut menu, &mut manager, "d");
    menu.on_key_pressed(Key::Down, &mut manager);
    let event = menu.on_key_pressed(Key::Enter, &mut manager);
    assert!(matches!(event, Some(MenuEvent::Quit(None))));
    assert_eq!(manager.task_count(), 0);
    assert_eq!(manager.next_id(), 1);
}

#[test]
fn incomplete_form_stays_open() {
    let mut manager = store();
    let mut menu = CreateTaskMenu::new(&manager, None);
    menu.on_key_pressed(Key::Down, &mut manager);
    menu.on_key_pressed(Key::Down, &mut manager);
    press(&mut menu, &mut manager, "only a description");
    menu.on_key_pressed(Key::Down, &mut manager);
    assert!(menu.accept_button().get_focus_state() == FocusState::Focused);
    assert!(menu.on_key_pressed(Key::Enter, &mut manager).is_none());
    assert_eq!(manager.task_count(), 0);
    assert_eq!(manager.next_id(), 0);
}

#[test]
fn enter_away_from_the_button_submits_nothing() {
    let mut manager = store();
    let mut menu = CreateTaskMenu::new(&manager, None);
    press(&mut menu, &mut manager, "t");
    menu.on_key_pressed(Key::Down, &mut manager);
    menu.on_key_pressed(Key::Down, &mut manager);
    press(&mut menu, &mut manager, "d");
    assert!(menu.on_key_pressed(Key::Enter, &mut manager).is_none());
    assert_eq!(manager.task_count(), 0);
}

#[test]
fn escape_leaves_the_form_without_a_task() {
    let mut manager = store();
    let mut menu = CreateTaskMenu::new(&manager, None);
    press(&mut menu, &mut manager, "t");
    let event = menu.on_key_pressed(Key::Esc, &mut manager);
    assert!(matches!(event, Some(MenuEvent::Quit(None))));
    assert_eq!(manager.task_count(), 0);
}

#[test]
fn form_widgets_follow_time() {
    let manager = store();
    let mut menu = CreateTaskMenu::new(&manager, None);
    assert_eq!(menu.title_input().text_to_show(), "|");
    menu.update(Duration::from_millis(500));
    assert_eq!(menu.title_input().text_to_show(), "");
}

fn two_level_store() -> TaskManager {
    let mut manager = store();
    manager.add_task(String::from("A"), String::from("Open"), String::from("a"));
    manager.add_task_with_parent(String::from("B"), String::from("Open"), String::from("b"), &TaskId(0));
    manager
}

#[test]
fn main_menu_moves_around_the_list() {
    let manager = two_level_store();
    let mut menu = MainMenu::new();
    menu.initialize(&manager);
    assert_eq!(menu.row_count(), 2);
    assert_eq!(menu.task_list().selected(), Some(0));
    assert!(matches!(menu.on_key_pressed(Key::Down), MainMenuStep::Answer(None)));
    assert_eq!(menu.task_list().selected(), Some(1));
    assert!(matches!(menu.on_key_pressed(Key::Down), MainMenuStep::Answer(None)));
    assert_eq!(menu.task_list().selected(), Some(0));
    assert!(matches!(menu.on_key_pressed(Key::Up), MainMenuStep::Answer(None)));
    assert_eq!(menu.task_list().selected(), Some(1));
    assert!(matches!(menu.on_key_pressed(Key::Other), MainMenuStep::Answer(None)));
    assert!(matches!(menu.on_key_pressed(Key::Char('x')), MainMenuStep::Answer(None)));
    assert_eq!(menu.task_list().selected(), Some(1));
}

#[test]
fn main_menu_asks_for_the_nested_menu() {
    let manager = two_level_store();
    let mut menu = MainMenu::new();
    assert_eq!(menu.has_selected_task(), false);
    menu.initialize(&manager);
    assert_eq!(menu.has_selected_task(), true);
    assert!(matches!(menu.on_key_pressed(Key::Char('n')), MainMenuStep::CreateTask(None)));
    assert!(matches!(menu.on_key_pressed(Key::Char('N')), MainMenuStep::CreateTask(None)));
    let under_cursor = menu.task_list().items[0].task.id;
    match menu.on_key_pressed(Key::Char('s')) {
        MainMenuStep::CreateTask(Some(parent)) => assert_eq!(parent, under_cursor),
        _ => panic!("a subtask must be asked for"),
    }
    assert!(matches!(
        menu.on_key_pressed(Key::Esc),
        MainMenuStep::Answer(Some(MenuEvent::Quit(())))
    ));
    assert_eq!(
        menu.bottom_bar().text(),
        "[N] Create task | [S] Create subtask | [Esc] Exit"
    );
}

#[test]
fn nested_quit_value_reaches_the_parent_which_keeps_running() {
    let mut manager = two_level_store();
    let mut parent = MainMenu::new();
    parent.initialize(&manager);
    let zero = Duration::from_millis(0);
    let mut parent_loop = running_loop::<()>();
    parent_loop.step::<()>(LoopReport::Rendered(Ok(())), zero);
    parent_loop.step::<()>(LoopReport::Polled(Ok(true)), zero);
    let action = parent_loop.step::<()>(LoopReport::Read(Ok(Some(Key::Char('n')))), zero);
    assert!(matches!(action, LoopAction::Dispatch(Key::Char('n'))));
    let step = parent.on_key_pressed(Key::Char('n'));
    assert!(matches!(step, MainMenuStep::CreateTask(None)));

    let mut nested = CreateTaskMenu::new(&manager, None);
    let mut nested_loop = running_loop::<Option<TaskId>>();
    nested_loop.step::<Option<TaskId>>(LoopReport::Rendered(Ok(())), zero);
    nested_loop.step::<Option<TaskId>>(LoopReport::Polled(Ok(true)), zero);
    nested_loop.step::<Option<TaskId>>(LoopReport::Read(Ok(Some(Key::Enter))), zero);
    press(&mut nested, &mut manager, "C");
    nested.on_key_pressed(Key::Down, &mut manager);
    nested.on_key_pressed(Key::Down, &mut manager);
    press(&mut nested, &mut manager, "c");
    nested.on_key_pressed(Key::Down, &mut manager);
    let event = nested.on_key_pressed(Key::Enter, &mut manager);
    let result = match nested_loop.step(LoopReport::Answered(event), zero) {
        LoopAction::Finish(result) => result,
        _ => panic!("the nested loop must end"),
    };
    assert!(nested_loop.current_phase() == MenuPhase::Terminated);
    assert!(matches!(result, Ok(Some(TaskId(2)))));

    let answer = parent.on_nested_result(&manager, result);
    assert!(matches!(answer, Some(MenuEvent::MenuExecutionResult(Ok(())))));
    let action = parent_loop.step(LoopReport::Answered(answer), zero);
    assert!(matches!(action, LoopAction::Render));
    assert!(parent_loop.current_phase() == MenuPhase::Running);
    assert_eq!(parent.row_count(), 3);
}

#[test]
fn nested_menu_left_without_task_changes_nothing() {
    let manager = two_level_store();
    let mut parent = MainMenu::new();
    parent.initialize(&manager);
    parent.on_key_pressed(Key::Down);
    let answer = parent.on_nested_result(&manager, Ok(None));
    assert!(answer.is_none());
    assert_eq!(parent.task_list().selected(), Some(1));
    parent.update(Duration::from_millis(40));
    assert_eq!(parent.task_list().selected(), Some(1));
}

#[test]
fn nested_failure_goes_up() {
    let manager = two_level_store();
    let mut parent = MainMenu::new();
    parent.initialize(&manager);
    let answer = parent.on_nested_result(&manager, Err(failure("poll")));
    match MenuLoop::on_event(answer) {
        Some(Err(e)) => assert_eq!(e.to_string(), "poll"),
        _ => panic!("the failure must end the loop of the parent"),
    }
}

#[test]
fn rows_are_indented_by_depth_and_marked_by_the_cursor() {
    let mut manager = store();
    manager.add_task(String::from("A"), String::from("Open"), String::from("a"));
    let mut menu = MainMenu::new();
    menu.initialize(&manager);
    assert_eq!(menu.row_text(0), " >A");
    assert_eq!(menu.row_indent(0), 0);
    assert_eq!(menu.row_connector(0), "");
    manager.add_task_with_parent(String::from("B"), String::from("Open"), String::from("b"), &TaskId(0));
    manager.add_task_with_parent(String::from("C"), String::from("Open"), String::from("c"), &TaskId(1));
    menu.on_nested_result(&manager, Ok(Some(TaskId(2))));
    let position = |title: &str| {
        menu.task_list().items.iter().position(|r| r.task.title == title).unwrap()
    };
    let (a, b, c) = (position("A"), position("B"), position("C"));
    let depth_b = menu.task_list().items[b].depth;
    let depth_c = menu.task_list().items[c].depth;
    assert_eq!(menu.task_list().items[a].depth, 0);
    assert_eq!(menu.row_indent(b), 4 * depth_b as u16);
    assert_eq!(menu.row_indent(c), 4 * depth_c as u16);
    if depth_c == 2 {
        assert_eq!(menu.row_connector(c), "      \u{2514}\u{2500}");
    }
    if depth_b == 1 {
        assert_eq!(menu.row_connector(b), "  \u{2514}\u{2500}");
    }
    let other = if a == 0 { b } else { a };
    assert_eq!(menu.row_text(0).chars().nth(1), Some('>'));
    assert_eq!(menu.row_text(other).chars().nth(1), Some(' '));
}

#[test]
fn stateful_list_wraps_around() {
    let mut list = StatefulList::with_items(vec![1, 2, 3]);
    assert_eq!(list.selected(), Some(0));
    list.next();
    assert_eq!(list.selected(), Some(1));
    list.next();
    assert_eq!(list.selected(), Some(2));
    list.next();
    assert_eq!(list.selected(), Some(0));
    list.previous();
    assert_eq!(list.selected(), Some(2));
    list.previous();
    assert_eq!(list.selected(), Some(1));
    assert_eq!(list.state.selected(), Some(1));
    assert_eq!(list.items, vec![1, 2, 3]);
}

#[test]
fn stateful_list_without_selection_starts_at_the_first() {
    let mut list: StatefulList<u8> = StatefulList::new();
    assert_eq!(list.selected(), None);
    list.next();
    list.previous();
    assert_eq!(list.selected(), None);
    list.items.push(4);
    list.items.push(5);
    list.previous();
    assert_eq!(list.selected(), Some(0));
    list.state.select(None);
    list.next();
    assert_eq!(list.selected(), Some(0));
}

#[test]
fn ui_state_lists_the_tasks() {
    let manager = two_level_store();
    let mut state = UIState::new(&manager);
    let mut titles: Vec<String> = state.task_list.items.iter().map(|t| t.title.clone()).collect();
    titles.sort();
    assert_eq!(titles, vec![String::from("A"), String::from("B")]);
    assert_eq!(state.task_list.selected(), Some(0));
    state.on_down();
    assert_eq!(state.task_list.selected(), Some(1));
    state.on_down();
    assert_eq!(state.task_list.selected(), Some(0));
    state.on_up();
    assert_eq!(state.task_list.selected(), Some(1));
}

#[test]
fn application_starts_from_the_default_states() {
    assert_eq!(state_file(), "state.json");
    let mut logic = Logic::new(None);
    assert_eq!(logic.task_manager.get_states().len(), 4);
    assert_eq!(logic.task_manager.save(), Some(String::from("state.json")));
    let mut application = Application::new(None).unwrap();
    let manager = &mut application.logic_mut().task_manager;
    assert_eq!(manager.get_states()[0], "Open");
    assert_eq!(manager.save_pending(), true);
}
