//! A push button.

use crate::key::Key;
use crate::widget::{FocusState, FocusableWidget};
use std::time::Duration;
use tui::layout::Alignment;
use vstd::prelude::*;
use vstd::string::StringExecFns;

verus! {

/// How the terminal library aligns a text in its area.
#[verifier::external_type_specification]
#[verifier::external_body]
pub struct ExAlignment(Alignment);

/// A labelled button. It reads no keys and does not follow time; the menu
/// that owns it asks whether it is focused.
pub struct Button {
    text: String,
    focus_state: FocusState,
    text_alignment: Alignment,
}

/// Mathematical model of a [`Button`].
pub struct ButtonView {
    pub text: Seq<char>,
    pub focus_state: FocusState,
    pub text_alignment: Alignment,
}

impl ButtonView {
    /// The text on display: the label, behind a marker while focused.
    pub open spec fn label(self) -> Seq<char> {
        if self.focus_state == FocusState::Focused {
            seq!['>'] + self.text
        } else {
            self.text
        }
    }
}

impl View for Button {
    type V = ButtonView;

    closed spec fn view(&self) -> ButtonView {
        ButtonView {
            text: self.text@,
            focus_state: self.focus_state,
            text_alignment: self.text_alignment,
        }
    }
}

impl Button {
    /// A button that is not focused.
    pub fn new(text: String, text_alignment: Alignment) -> (button: Button)
        ensures
            button@ == (ButtonView {
                text: text@,
                focus_state: FocusState::NotFocused,
                text_alignment,
            }),
    {
        Button { text, focus_state: FocusState::NotFocused, text_alignment }
    }

    /// The text on display: the label, behind a marker while focused.
    pub fn label(&self) -> (label: String)
        ensures
            label@ == self@.label(),
    {
        if self.focus_state == FocusState::Focused {
            let mut label = String::from_str(">");
            proof {
                reveal_strlit(">");
            }
            label.append(self.text.as_str());
            assert(label@ =~= seq!['>'] + self.text@);
            label
        } else {
            self.text.clone()
        }
    }

    /// How the label is aligned.
    pub fn text_alignment(&self) -> (alignment: Alignment)
        ensures
            alignment == self@.text_alignment,
    {
        self.text_alignment
    }
}

impl FocusableWidget for Button {
    open spec fn focus_of(model: ButtonView) -> FocusState {
        model.focus_state
    }

    open spec fn notified(model: ButtonView, focus_state: FocusState) -> ButtonView {
        ButtonView { focus_state, ..model }
    }

    open spec fn keyed(model: ButtonView, key: Key) -> ButtonView {
        model
    }

    open spec fn aged(model: ButtonView, duration: Duration) -> ButtonView {
        model
    }

    proof fn lemma_notified_focus(model: ButtonView, focus_state: FocusState) {
    }

    proof fn lemma_focus_kept(model: ButtonView, key: Key, duration: Duration) {
    }

    fn focus_state_changed(&mut self, focus_state: FocusState) {
        self.focus_state = focus_state;
    }

    fn get_focus_state(&self) -> (focus_state: FocusState) {
        self.focus_state
    }

    fn process_input(&mut self, _key_code: Key) {
    }

    fn update(&mut self, _duration: Duration) {
    }
}

} // verus!
