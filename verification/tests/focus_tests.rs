use std::time::Duration;
use task_tree::focus_controller::FocusController;
use task_tree::input_widget::InputWidget;
use task_tree::key::Key;
use task_tree::widget::{FocusState, FocusableWidget};

fn three() -> FocusController<InputWidget> {
    FocusController::new(vec![
        InputWidget::create_text_label(),
        InputWidget::create_text_label(),
        InputWidget::create_text_area(),
    ])
}

fn focus(controller: &FocusController<InputWidget>) -> Vec<bool> {
    (0..controller.len())
        .map(|i| controller.widget(i).get_focus_state() == FocusState::Focused)
        .collect()
}

#[test]
fn focus_starts_at_the_first_widget() {
    let controller = three();
    assert_eq!(controller.len(), 3);
    assert_eq!(controller.selected_widget(), 0);
    assert_eq!(focus(&controller), vec![true, false, false]);
}

#[test]
fn down_moves_focus_and_notifies_both() {
    let mut controller = three();
    controller.process_input(Key::Down);
    assert_eq!(controller.selected_widget(), 1);
    assert_eq!(focus(&controller), vec![false, true, false]);
    assert_eq!(controller.widget(0).text_to_show(), "");
    assert_eq!(controller.widget(1).text_to_show(), "|");
}

#[test]
fn down_at_the_last_widget_is_a_no_op() {
    let mut controller = three();
    controller.process_input(Key::Down);
    controller.process_input(Key::Tab);
    assert_eq!(controller.selected_widget(), 2);
    controller.update(Duration::from_millis(500));
    assert_eq!(controller.widget(2).text_to_show(), "");
    controller.process_input(Key::Down);
    controller.process_input(Key::Tab);
    assert_eq!(controller.selected_widget(), 2);
    assert_eq!(focus(&controller), vec![false, false, true]);
    assert_eq!(controller.widget(2).text_to_show(), "");
}

#[test]
fn up_moves_back_and_stops_at_the_first() {
    let mut controller = three();
    controller.process_input(Key::Down);
    controller.process_input(Key::Up);
    assert_eq!(controller.selected_widget(), 0);
    assert_eq!(focus(&controller), vec![true, false, false]);
    controller.process_input(Key::Up);
    assert_eq!(controller.selected_widget(), 0);
    assert_eq!(focus(&controller), vec![true, false, false]);
}

#[test]
fn other_keys_go_to_the_focused_widget() {
    let mut controller = three();
    controller.process_input(Key::Char('a'));
    controller.process_input(Key::Down);
    controller.process_input(Key::Char('b'));
    controller.process_input(Key::Enter);
    assert_eq!(controller.widget(0).get_current_text(), "a");
    assert_eq!(controller.widget(1).get_current_text(), "b");
    assert_eq!(controller.widget(2).get_current_text(), "");
    assert_eq!(controller.get_focused_widget().unwrap().get_current_text(), "b");
}

#[test]
fn update_reaches_every_widget() {
    let mut controller: FocusController<InputWidget> = FocusController::new(vec![
        {
            let mut w = InputWidget::create_text_label();
            w.focus_state_changed(FocusState::Focused);
            w
        },
        {
            let mut w = InputWidget::create_text_label();
            w.focus_state_changed(FocusState::Focused);
            w
        },
    ]);
    assert_eq!(controller.widget(1).text_to_show(), "|");
    controller.update(Duration::from_millis(500));
    assert_eq!(controller.widget(0).text_to_show(), "");
    assert_eq!(controller.widget(1).text_to_show(), "");
}

#[test]
fn empty_controller_does_nothing() {
    let mut controller: FocusController<InputWidget> = FocusController::new(Vec::new());
    controller.process_input(Key::Down);
    controller.process_input(Key::Up);
    controller.process_input(Key::Char('a'));
    controller.update(Duration::from_millis(40));
    assert_eq!(controller.len(), 0);
    assert_eq!(controller.selected_widget(), 0);
    assert!(controller.get_focused_widget().is_none());
}
