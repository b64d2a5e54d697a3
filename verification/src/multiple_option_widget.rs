//! A row or column of options of which one is selected.

use crate::key::Key;
use crate::task_manager::state_names;
use crate::widget::{FocusState, FocusableWidget};
use std::time::Duration;
use tui::layout::Direction;
use vstd::prelude::*;
use vstd::string::StringExecFns;

verus! {

/// The direction in which the terminal library lays out a row of areas.
#[verifier::external_type_specification]
#[verifier::external_body]
pub struct ExDirection(Direction);

/// Options to choose from with the left and right keys. As long as there is
/// an option, one is selected.
pub struct MultipleOptionWidget {
    selected_option: Option<usize>,
    options: Vec<String>,
    direction: Direction,
    focus_state: FocusState,
}

/// Mathematical model of a [`MultipleOptionWidget`].
pub struct MultipleOptionView {
    pub selected: Option<usize>,
    pub options: Seq<Seq<char>>,
    pub direction: Direction,
    pub focus_state: FocusState,
}

/// The number of bytes that `text` takes as a string.
pub open spec fn byte_len(text: Seq<char>) -> usize {
    vstd::utf8::encode_utf8(text).len() as usize
}

impl MultipleOptionView {
    /// The selection names an option, and is missing only if there is none.
    pub open spec fn well_formed(self) -> bool {
        match self.selected {
            Some(i) => i < self.options.len(),
            None => self.options.len() == 0,
        }
    }

    /// The option that is selected.
    pub open spec fn selected_option(self) -> Option<Seq<char>> {
        match self.selected {
            Some(i) => Some(self.options[i as int]),
            None => None,
        }
    }

    /// Whether the option at `index` is the selected one.
    pub open spec fn is_selected(self, index: int) -> bool {
        self.selected == Some(index as usize)
    }

    /// The text on display for the option at `index`: the option, behind a
    /// marker if it is selected while the widget is focused.
    pub open spec fn option_label(self, index: int) -> Seq<char> {
        if self.is_selected(index) && self.focus_state == FocusState::Focused {
            seq!['>'] + self.options[index]
        } else {
            self.options[index]
        }
    }

    /// Whether the option at `index` has room for the marker: it reads as
    /// the selected option does while the widget is focused.
    pub open spec fn holds_marker(self, index: int) -> bool {
        self.focus_state == FocusState::Focused && self.selected_option() == Some(
            self.options[index],
        )
    }

    /// The columns that the option at `index` is given: one for each byte
    /// of its text and one for the marker where it has room for one, as far
    /// as the width of a terminal goes.
    pub open spec fn option_width(self, index: int) -> u16 {
        let bytes = byte_len(self.options[index]) as int;
        let width = if self.holds_marker(index) {
            bytes + 1
        } else {
            bytes
        };
        if width > u16::MAX {
            u16::MAX
        } else {
            width as u16
        }
    }

    /// The selection after a step to the left: one back, unless it is the
    /// first option.
    pub open spec fn moved_left(self) -> Option<usize> {
        match self.selected {
            Some(i) => if i > 0 {
                Some((i - 1) as usize)
            } else {
                Some(i)
            },
            None => Some(0),
        }
    }

    /// The selection after a step to the right: one further, unless it is
    /// the last option.
    pub open spec fn moved_right(self) -> Option<usize> {
        match self.selected {
            Some(i) => if i + 1 < self.options.len() {
                Some((i + 1) as usize)
            } else {
                Some(i)
            },
            None => Some(0),
        }
    }
}

impl View for MultipleOptionWidget {
    type V = MultipleOptionView;

    closed spec fn view(&self) -> MultipleOptionView {
        MultipleOptionView {
            selected: self.selected_option,
            options: state_names(self.options@),
            direction: self.direction,
            focus_state: self.focus_state,
        }
    }
}

/// A copy of a list of strings.
fn clone_strings(strings: &Vec<String>) -> (copy: Vec<String>)
    ensures
        state_names(copy@) == state_names(strings@),
{
    let mut copy: Vec<String> = Vec::new();
    let mut i: usize = 0;
    while i < strings.len()
        invariant
            i <= strings.len(),
            copy.len() == i,
            forall|j: int| 0 <= j < i ==> copy[j]@ == strings[j]@,
        decreases strings.len() - i,
    {
        copy.push(strings[i].clone());
        i = i + 1;
    }
    assert(state_names(copy@) =~= state_names(strings@));
    copy
}

impl MultipleOptionWidget {
    #[verifier::type_invariant]
    spec fn selection_names_an_option(self) -> bool {
        self@.well_formed()
    }

    /// A widget over a copy of `options` that is not focused. The first
    /// option is selected, if there is one.
    pub fn new(options: &Vec<String>, direction: Direction) -> (widget: MultipleOptionWidget)
        ensures
            widget@ == (MultipleOptionView {
                selected: if options@.len() > 0 {
                    Some(0usize)
                } else {
                    None
                },
                options: state_names(options@),
                direction,
                focus_state: FocusState::NotFocused,
            }),
            widget@.well_formed(),
    {
        let selected_option = if options.len() > 0 {
            Some(0)
        } else {
            None
        };
        MultipleOptionWidget {
            selected_option,
            options: clone_strings(options),
            direction,
            focus_state: FocusState::NotFocused,
        }
    }

    /// A copy of the selected option.
    pub fn get_selected_option(&self) -> (option: Option<String>)
        ensures
            self@.well_formed(),
            match option {
                Some(o) => self@.selected_option() == Some(o@),
                None => self@.selected_option() is None,
            },
    {
        proof {
            use_type_invariant(self);
        }
        if let Some(selected_option) = self.selected_option {
            return Some(self.options[selected_option].clone());
        }
        return None;
    }

    /// The number of options.
    pub fn option_count(&self) -> (count: usize)
        ensures
            count == self@.options.len(),
    {
        self.options.len()
    }

    /// The option at `index`.
    pub fn option(&self, index: usize) -> (option: &String)
        requires
            index < self@.options.len(),
        ensures
            option@ == self@.options[index as int],
    {
        &self.options[index]
    }

    /// Whether the option at `index` is the selected one, which is shown
    /// underlined.
    pub fn is_selected(&self, index: usize) -> (selected: bool)
        ensures
            selected == self@.is_selected(index as int),
    {
        match self.selected_option {
            Some(i) => i == index,
            None => false,
        }
    }

    /// The text on display for the option at `index`.
    pub fn option_label(&self, index: usize) -> (label: String)
        requires
            index < self@.options.len(),
        ensures
            label@ == self@.option_label(index as int),
    {
        if self.is_selected(index) && self.focus_state == FocusState::Focused {
            let mut label = String::from_str(">");
            proof {
                reveal_strlit(">");
            }
            label.append(self.options[index].as_str());
            assert(label@ =~= seq!['>'] + self.options[index as int]@);
            label
        } else {
            self.options[index].clone()
        }
    }

    /// The columns that the option at `index` is given.
    pub fn option_width(&self, index: usize) -> (width: u16)
        requires
            index < self@.options.len(),
        ensures
            width == self@.option_width(index as int),
    {
        proof {
            use_type_invariant(self);
        }
        let bytes = self.options[index].as_str().len();
        let marked = match self.selected_option {
            Some(i) => self.focus_state == FocusState::Focused && self.options[i]
                == self.options[index],
            None => false,
        };
        if bytes >= 0xffff {
            0xffff
        } else if marked {
            (bytes + 1) as u16
        } else {
            bytes as u16
        }
    }

    /// The direction in which the options are laid out.
    pub fn direction(&self) -> (direction: &Direction)
        ensures
            *direction == self@.direction,
    {
        &self.direction
    }
}

impl FocusableWidget for MultipleOptionWidget {
    open spec fn focus_of(model: MultipleOptionView) -> FocusState {
        model.focus_state
    }

    open spec fn notified(model: MultipleOptionView, focus_state: FocusState) -> MultipleOptionView {
        MultipleOptionView { focus_state, ..model }
    }

    /// The left and right keys move the selection, whether or not the
    /// widget is focused; without options there is nothing to move.
    open spec fn keyed(model: MultipleOptionView, key: Key) -> MultipleOptionView {
        if model.options.len() == 0 {
            model
        } else {
            match key {
                Key::Left => MultipleOptionView { selected: model.moved_left(), ..model },
                Key::Right => MultipleOptionView { selected: model.moved_right(), ..model },
                _ => model,
            }
        }
    }

    open spec fn aged(model: MultipleOptionView, duration: Duration) -> MultipleOptionView {
        model
    }

    proof fn lemma_notified_focus(model: MultipleOptionView, focus_state: FocusState) {
    }

    proof fn lemma_focus_kept(model: MultipleOptionView, key: Key, duration: Duration) {
    }

    fn focus_state_changed(&mut self, focus_state: FocusState) {
        proof {
            use_type_invariant(&*self);
        }
        self.focus_state = focus_state;
    }

    fn get_focus_state(&self) -> (focus_state: FocusState) {
        self.focus_state
    }

    fn process_input(&mut self, key_code: Key) {
        proof {
            use_type_invariant(&*self);
        }
        if self.options.len() == 0 {
            return ;
        }
        match key_code {
            Key::Left => {
                if let Some(selected_option) = self.selected_option {
                    if selected_option > 0 {
                        self.selected_option = Some(selected_option - 1);
                    }
                } else {
                    self.selected_option = Some(0);
                }
            },
            Key::Right => {
                if let Some(selected_option) = self.selected_option {
                    if selected_option < self.options.len() - 1 {
                        self.selected_option = Some(selected_option + 1);
                    }
                } else {
                    self.selected_option = Some(0);
                }
            },
            _ => (),
        }
    }

    fn update(&mut self, _duration: Duration) {
    }
}

} // verus!
