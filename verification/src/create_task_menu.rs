//! The menu that creates a task: a title, a state, a description and a
//! button to accept them.

use crate::bottom_bar::{bar_entry, BottomBar, BottomBarAction, BottomBarEntry};
use crate::button::{Button, ButtonView};
use crate::focus_controller::{after_key, after_update, FocusController, FocusView};
use crate::input_widget::{InputView, InputWidget};
use crate::key::Key;
use crate::menu::MenuEvent;
use crate::multiple_option_widget::{MultipleOptionView, MultipleOptionWidget};
use crate::task::TaskId;
use crate::task_manager::TaskManager;
use crate::widget::{FocusState, FocusableWidget};
use std::time::Duration;
use tui::layout::{Alignment, Direction};
use vstd::pervasive::unreached;
use vstd::prelude::*;
use vstd::string::StringExecFns;

verus! {

/// One of the widgets of the form.
pub enum FormWidget {
    Input(InputWidget),
    Options(MultipleOptionWidget),
    Button(Button),
}

/// Mathematical model of a [`FormWidget`].
pub enum FormWidgetView {
    Input(InputView),
    Options(MultipleOptionView),
    Button(ButtonView),
}

impl View for FormWidget {
    type V = FormWidgetView;

    open spec fn view(&self) -> FormWidgetView {
        match self {
            FormWidget::Input(w) => FormWidgetView::Input(w@),
            FormWidget::Options(w) => FormWidgetView::Options(w@),
            FormWidget::Button(w) => FormWidgetView::Button(w@),
        }
    }
}

impl FocusableWidget for FormWidget {
    open spec fn focus_of(model: FormWidgetView) -> FocusState {
        match model {
            FormWidgetView::Input(m) => InputWidget::focus_of(m),
            FormWidgetView::Options(m) => MultipleOptionWidget::focus_of(m),
            FormWidgetView::Button(m) => Button::focus_of(m),
        }
    }

    open spec fn notified(model: FormWidgetView, focus_state: FocusState) -> FormWidgetView {
        match model {
            FormWidgetView::Input(m) => FormWidgetView::Input(
                InputWidget::notified(m, focus_state),
            ),
            FormWidgetView::Options(m) => FormWidgetView::Options(
                MultipleOptionWidget::notified(m, focus_state),
            ),
            FormWidgetView::Button(m) => FormWidgetView::Button(Button::notified(m, focus_state)),
        }
    }

    open spec fn keyed(model: FormWidgetView, key: Key) -> FormWidgetView {
        match model {
            FormWidgetView::Input(m) => FormWidgetView::Input(InputWidget::keyed(m, key)),
            FormWidgetView::Options(m) => FormWidgetView::Options(
                MultipleOptionWidget::keyed(m, key),
            ),
            FormWidgetView::Button(m) => FormWidgetView::Button(Button::keyed(m, key)),
        }
    }

    open spec fn aged(model: FormWidgetView, duration: Duration) -> FormWidgetView {
        match model {
            FormWidgetView::Input(m) => FormWidgetView::Input(InputWidget::aged(m, duration)),
            FormWidgetView::Options(m) => FormWidgetView::Options(
                MultipleOptionWidget::aged(m, duration),
            ),
            FormWidgetView::Button(m) => FormWidgetView::Button(Button::aged(m, duration)),
        }
    }

    proof fn lemma_notified_focus(model: FormWidgetView, focus_state: FocusState) {
    }

    proof fn lemma_focus_kept(model: FormWidgetView, key: Key, duration: Duration) {
    }

    fn focus_state_changed(&mut self, focus_state: FocusState) {
        match self {
            FormWidget::Input(w) => w.focus_state_changed(focus_state),
            FormWidget::Options(w) => w.focus_state_changed(focus_state),
            FormWidget::Button(w) => w.focus_state_changed(focus_state),
        }
    }

    fn get_focus_state(&self) -> (focus_state: FocusState) {
        match self {
            FormWidget::Input(w) => w.get_focus_state(),
            FormWidget::Options(w) => w.get_focus_state(),
            FormWidget::Button(w) => w.get_focus_state(),
        }
    }

    fn process_input(&mut self, key_code: Key) {
        match self {
            FormWidget::Input(w) => w.process_input(key_code),
            FormWidget::Options(w) => w.process_input(key_code),
            FormWidget::Button(w) => w.process_input(key_code),
        }
    }

    fn update(&mut self, duration: Duration) {
        match self {
            FormWidget::Input(w) => w.update(duration),
            FormWidget::Options(w) => w.update(duration),
            FormWidget::Button(w) => w.update(duration),
        }
    }
}

/// `Alignment::Center` of the terminal library. Nothing is claimed of it.
#[verifier::external_body]
fn centered() -> Alignment {
    Alignment::Center
}

/// `Direction::Horizontal` of the terminal library. Nothing is claimed of
/// it.
#[verifier::external_body]
fn horizontal() -> Direction {
    Direction::Horizontal
}

/// The position of the title in the form.
pub const TITLE: usize = 0;

/// The position of the state in the form.
pub const STATE: usize = 1;

/// The position of the description in the form.
pub const DESCRIPTION: usize = 2;

/// The position of the button that accepts the form.
pub const ACCEPT: usize = 3;

/// The form of a task and the parent under which the task is created.
pub struct CreateTaskMenu {
    bottom_bar: BottomBar,
    focus_controller: FocusController<FormWidget>,
    parent_task: Option<TaskId>,
}

/// Mathematical model of a [`CreateTaskMenu`].
pub struct CreateTaskView {
    pub form: FocusView<FormWidgetView>,
    pub parent: Option<TaskId>,
    pub bar: Seq<BottomBarEntry>,
}

/// The bar of the menu: submitting the form, and the way out.
pub open spec fn create_task_bar() -> Seq<BottomBarEntry> {
    seq![
        bar_entry(Key::Enter, BottomBarAction::Submit),
        bar_entry(Key::Esc, BottomBarAction::Exit),
    ]
}

/// What a filled form asks the store to create.
pub struct Submission {
    pub title: Seq<char>,
    pub state: Seq<char>,
    pub description: Seq<char>,
}

impl CreateTaskView {
    /// The form holds a title, a state, a description and the button, in
    /// this order.
    pub open spec fn well_formed(self) -> bool {
        &&& self.form.widgets.len() == 4
        &&& self.form.selected < 4
        &&& self.form.widgets[TITLE as int] is Input
        &&& self.form.widgets[STATE as int] is Options
        &&& self.form.widgets[DESCRIPTION as int] is Input
        &&& self.form.widgets[ACCEPT as int] is Button
    }

    /// The title as typed so far.
    pub open spec fn title(self) -> Seq<char> {
        match self.form.widgets[TITLE as int] {
            FormWidgetView::Input(w) => w.text,
            _ => Seq::empty(),
        }
    }

    /// The state that is selected, if there is a state to select.
    pub open spec fn state(self) -> Option<Seq<char>> {
        match self.form.widgets[STATE as int] {
            FormWidgetView::Options(w) => w.selected_option(),
            _ => None,
        }
    }

    /// The description as typed so far.
    pub open spec fn description(self) -> Seq<char> {
        match self.form.widgets[DESCRIPTION as int] {
            FormWidgetView::Input(w) => w.text,
            _ => Seq::empty(),
        }
    }

    /// Whether the button that accepts the form is focused.
    pub open spec fn accept_focused(self) -> bool {
        FormWidget::focus_of(self.form.widgets[ACCEPT as int]) == FocusState::Focused
    }

    /// What `Enter` submits: the content of the form, if the button is
    /// focused, title and description are not empty and a state is
    /// selected. Otherwise nothing is submitted.
    pub open spec fn submission(self) -> Option<Submission> {
        if self.accept_focused() && self.title().len() > 0 && self.state() is Some
            && self.description().len() > 0 {
            Some(
                Submission {
                    title: self.title(),
                    state: self.state()->0,
                    description: self.description(),
                },
            )
        } else {
            None
        }
    }

    /// The parent as the store knows it.
    pub open spec fn parent_key(self) -> Option<u64> {
        match self.parent {
            Some(p) => Some(p.0),
            None => None,
        }
    }
}

/// Keys and time leave the widgets of the form in their places.
pub proof fn lemma_form_keeps_its_shape(model: CreateTaskView, key: Key, duration: Duration)
    requires
        model.well_formed(),
    ensures
        (CreateTaskView {
            form: after_key::<FormWidget>(model.form, key),
            ..model
        }).well_formed(),
        (CreateTaskView {
            form: after_update::<FormWidget>(model.form, duration),
            ..model
        }).well_formed(),
{
}

impl View for CreateTaskMenu {
    type V = CreateTaskView;

    closed spec fn view(&self) -> CreateTaskView {
        CreateTaskView {
            form: self.focus_controller@,
            parent: self.parent_task,
            bar: self.bottom_bar@,
        }
    }
}

impl CreateTaskMenu {
    /// The menu at its start: an empty title, the valid states of the store
    /// with the first one selected, an empty description and the button.
    /// The title is focused.
    pub fn new(task_manager: &TaskManager, parent_task: Option<TaskId>) -> (menu: CreateTaskMenu)
        ensures
            menu@.well_formed(),
            menu@.parent == parent_task,
            menu@.bar == create_task_bar(),
            menu@.form.selected == TITLE,
            menu@.title() == Seq::<char>::empty(),
            menu@.description() == Seq::<char>::empty(),
            menu@.state() == if task_manager@.valid_states.len() > 0 {
                Some(task_manager@.valid_states[0])
            } else {
                None
            },
            !menu@.accept_focused(),
            FormWidget::focus_of(menu@.form.widgets[TITLE as int]) == FocusState::Focused,
    {
        let mut bottom_bar = BottomBar::new();
        bottom_bar.add_action(Key::Enter, BottomBarAction::Submit);
        bottom_bar.add_action(Key::Esc, BottomBarAction::Exit);
        let title_input = InputWidget::create_text_label();
        let description_input = InputWidget::create_text_area();
        let state_input = MultipleOptionWidget::new(task_manager.get_states(), horizontal());
        let accept_button = Button::new(String::from_str("Accept"), centered());
        let mut focusable_widgets: Vec<FormWidget> = Vec::new();
        focusable_widgets.push(FormWidget::Input(title_input));
        focusable_widgets.push(FormWidget::Options(state_input));
        focusable_widgets.push(FormWidget::Input(description_input));
        focusable_widgets.push(FormWidget::Button(accept_button));
        let focus_controller = FocusController::new(focusable_widgets);
        let menu = CreateTaskMenu { bottom_bar, focus_controller, parent_task };
        assert(menu@.bar =~= create_task_bar());
        menu
    }

    /// Handles a key. The key first goes through the focus navigation of
    /// the form. Then `Esc` leaves the menu without a task. `Enter` submits
    /// the form if it is complete and the button is focused: the store is
    /// asked to create the task, under the parent if the menu has one, and
    /// the menu quits with what the store answered. Any other key, and
    /// `Enter` on a form that is not ready, ends nothing.
    pub fn on_key_pressed(&mut self, key: Key, task_manager: &mut TaskManager) -> (event: Option<
        MenuEvent<Option<TaskId>>,
    >)
        requires
            old(self)@.well_formed(),
            old(task_manager)@.next_id < u64::MAX,
        ensures
            final(self)@.well_formed(),
            final(self)@ == (CreateTaskView {
                form: after_key::<FormWidget>(old(self)@.form, key),
                ..old(self)@
            }),
            match final(self)@.submission() {
                Some(form) if key == Key::Enter => {
                    &&& final(task_manager)@ == old(task_manager)@.with_task(
                        form.title,
                        form.state,
                        form.description,
                        old(self)@.parent_key(),
                    )
                    &&& event == Some(
                        MenuEvent::<Option<TaskId>>::Quit(
                            if old(task_manager)@.accepts(form.state, old(self)@.parent_key()) {
                                Some(TaskId(old(task_manager)@.next_id))
                            } else {
                                None
                            },
                        ),
                    )
                },
                _ => {
                    &&& final(task_manager)@ == old(task_manager)@
                    &&& event == if key == Key::Esc {
                        Some(MenuEvent::<Option<TaskId>>::Quit(None))
                    } else {
                        None
                    }
                },
            },
    {
        proof {
            lemma_form_keeps_its_shape(self@, key, arbitrary());
        }
        self.focus_controller.process_input(key);
        match key {
            Key::Esc => {
                return Some(MenuEvent::Quit(None));
            },
            Key::Enter => {
                if self.accept_button().get_focus_state() == FocusState::Focused {
                    let title = self.title_input().get_current_text();
                    let state = self.state_input().get_selected_option();
                    let description = self.description_input().get_current_text();
                    if !title.as_str().is_empty() && state.is_some()
                        && !description.as_str().is_empty() {
                        let created = match self.parent_task {
                            Some(parent_task) => task_manager.add_task_with_parent(
                                title,
                                state.unwrap(),
                                description,
                                &parent_task,
                            ),
                            None => task_manager.add_task(title, state.unwrap(), description),
                        };
                        return Some(MenuEvent::Quit(created));
                    }
                }
            },
            _ => (),
        };
        None
    }

    /// The title input.
    pub fn title_input(&self) -> (widget: &InputWidget)
        requires
            self@.well_formed(),
        ensures
            self@.form.widgets[TITLE as int] == FormWidgetView::Input(widget@),
    {
        match self.focus_controller.widget(TITLE) {
            FormWidget::Input(w) => w,
            _ => unreached(),
        }
    }

    /// The widget that selects the state.
    pub fn state_input(&self) -> (widget: &MultipleOptionWidget)
        requires
            self@.well_formed(),
        ensures
            self@.form.widgets[STATE as int] == FormWidgetView::Options(widget@),
    {
        match self.focus_controller.widget(STATE) {
            FormWidget::Options(w) => w,
            _ => unreached(),
        }
    }

    /// The description input.
    pub fn description_input(&self) -> (widget: &InputWidget)
        requires
            self@.well_formed(),
        ensures
            self@.form.widgets[DESCRIPTION as int] == FormWidgetView::Input(widget@),
    {
        match self.focus_controller.widget(DESCRIPTION) {
            FormWidget::Input(w) => w,
            _ => unreached(),
        }
    }

    /// The button that accepts the form.
    pub fn accept_button(&self) -> (widget: &Button)
        requires
            self@.well_formed(),
        ensures
            self@.form.widgets[ACCEPT as int] == FormWidgetView::Button(widget@),
    {
        match self.focus_controller.widget(ACCEPT) {
            FormWidget::Button(w) => w,
            _ => unreached(),
        }
    }

    /// The bar that names the keys of the menu.
    pub fn bottom_bar(&self) -> (bar: &BottomBar)
        ensures
            bar@ == self@.bar,
    {
        &self.bottom_bar
    }

    /// Lets the widgets follow the time that has passed.
    pub fn update(&mut self, elapsed_time: Duration)
        requires
            old(self)@.well_formed(),
        ensures
            final(self)@ == (CreateTaskView {
                form: after_update::<FormWidget>(old(self)@.form, elapsed_time),
                ..old(self)@
            }),
            final(self)@.well_formed(),
    {
        self.focus_controller.update(elapsed_time);
    }
}

} // verus!
