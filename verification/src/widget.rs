//! What a widget must offer to take part in focus navigation.

use crate::key::Key;
use std::time::Duration;
use vstd::prelude::*;

verus! {

/// Whether a widget receives the keys that are not used for navigation.
#[derive(Clone, Copy, Debug, PartialEq, Eq, Structural)]
pub enum FocusState {
    Focused,
    NotFocused,
}

/// A widget that can gain and lose focus, read keys and follow time. Its
/// model says what each of these does to it.
pub trait FocusableWidget: View + Sized {
    /// The focus state that the model holds.
    spec fn focus_of(model: Self::V) -> FocusState;

    /// The model after the widget has been told of a focus state.
    spec fn notified(model: Self::V, focus_state: FocusState) -> Self::V;

    /// The model after the widget has read a key.
    spec fn keyed(model: Self::V, key: Key) -> Self::V;

    /// The model after time has passed.
    spec fn aged(model: Self::V, duration: Duration) -> Self::V;

    /// After a notification the widget holds the focus state it was told.
    proof fn lemma_notified_focus(model: Self::V, focus_state: FocusState)
        ensures
            Self::focus_of(Self::notified(model, focus_state)) == focus_state,
    ;

    /// Keys and time leave the focus state as it is.
    proof fn lemma_focus_kept(model: Self::V, key: Key, duration: Duration)
        ensures
            Self::focus_of(Self::keyed(model, key)) == Self::focus_of(model),
            Self::focus_of(Self::aged(model, duration)) == Self::focus_of(model),
    ;

    /// Tells the widget that it has gained or lost focus.
    fn focus_state_changed(&mut self, focus_state: FocusState)
        ensures
            final(self)@ == Self::notified(old(self)@, focus_state),
    ;

    /// The focus state of the widget.
    fn get_focus_state(&self) -> (focus_state: FocusState)
        ensures
            focus_state == Self::focus_of(self@),
    ;

    /// Hands a key to the widget.
    fn process_input(&mut self, key_code: Key)
        ensures
            final(self)@ == Self::keyed(old(self)@, key_code),
    ;

    /// Lets the widget follow the time that has passed.
    fn update(&mut self, duration: Duration)
        ensures
            final(self)@ == Self::aged(old(self)@, duration),
    ;
}

} // verus!
