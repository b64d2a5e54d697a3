//! A text input with a blinking caret.

use crate::key::Key;
use crate::time::{nanos_of, nanos_per_milli};
use crate::widget::{FocusState, FocusableWidget};
use std::time::Duration;
use vstd::prelude::*;

verus! {

/// Milliseconds between two changes of the caret.
pub const CURSOR_TICK_MILLIS: i32 = 500;

struct CursorState {
    tick_rate_milliseconds_left: i32,
    is_cursor_showing: bool,
}

/// A line or an area of text that is edited while focused.
pub struct InputWidget {
    text: String,
    focus_state: FocusState,
    cursor_state: Option<CursorState>,
    allow_new_lines: bool,
}

/// Mathematical model of the caret of a focused [`InputWidget`].
pub struct CursorView {
    /// Milliseconds until the caret changes next.
    pub millis_left: i32,
    pub showing: bool,
}

impl CursorView {
    /// The caret as it is when the widget gains focus or its text changes.
    pub open spec fn fresh() -> CursorView {
        CursorView { millis_left: CURSOR_TICK_MILLIS, showing: true }
    }

    /// The caret after `millis` milliseconds: the time left goes down, not
    /// below what an `i32` holds; once it is used up the caret changes and
    /// the time of one tick is added.
    pub open spec fn blinked(self, millis: nat) -> CursorView {
        let elapsed = if millis > i32::MAX {
            i32::MAX as int
        } else {
            millis as int
        };
        let left = if self.millis_left - elapsed < i32::MIN {
            i32::MIN as int
        } else {
            self.millis_left - elapsed
        };
        if left <= 0 {
            CursorView { millis_left: (left + CURSOR_TICK_MILLIS) as i32, showing: !self.showing }
        } else {
            CursorView { millis_left: left as i32, showing: self.showing }
        }
    }
}

/// Mathematical model of an [`InputWidget`].
pub struct InputView {
    pub text: Seq<char>,
    pub focus_state: FocusState,
    /// The caret; the widget has one while it is focused.
    pub cursor: Option<CursorView>,
    pub allow_new_lines: bool,
}

impl InputView {
    /// An empty input that is not focused.
    pub open spec fn empty(allow_new_lines: bool) -> InputView {
        InputView {
            text: Seq::empty(),
            focus_state: FocusState::NotFocused,
            cursor: None,
            allow_new_lines,
        }
    }

    /// The text that `key` leaves, if the key edits the text of a focused
    /// input: a character is appended, backspace removes the last
    /// character, and enter appends a line break where line breaks are
    /// allowed.
    pub open spec fn edited(self, key: Key) -> Option<Seq<char>> {
        match key {
            Key::Char(c) => Some(self.text.push(c)),
            Key::Backspace => Some(
                if self.text.len() > 0 {
                    self.text.drop_last()
                } else {
                    self.text
                },
            ),
            Key::Enter => if self.allow_new_lines {
                Some(self.text.push('\n'))
            } else {
                None
            },
            _ => None,
        }
    }

    /// The text on display: the text, followed by the caret while it shows.
    pub open spec fn text_to_show(self) -> Seq<char> {
        match self.cursor {
            Some(cursor) if cursor.showing => self.text.push('|'),
            _ => self.text,
        }
    }
}

impl View for InputWidget {
    type V = InputView;

    closed spec fn view(&self) -> InputView {
        InputView {
            text: self.text@,
            focus_state: self.focus_state,
            cursor: match self.cursor_state {
                Some(c) => Some(
                    CursorView {
                        millis_left: c.tick_rate_milliseconds_left,
                        showing: c.is_cursor_showing,
                    },
                ),
                None => None,
            },
            allow_new_lines: self.allow_new_lines,
        }
    }
}

impl InputWidget {
    fn new(allow_new_lines: bool) -> (widget: InputWidget)
        ensures
            widget@ == InputView::empty(allow_new_lines),
    {
        InputWidget {
            text: String::new(),
            focus_state: FocusState::NotFocused,
            cursor_state: None,
            allow_new_lines,
        }
    }

    /// An empty input that takes line breaks.
    pub fn create_text_area() -> (widget: InputWidget)
        ensures
            widget@ == InputView::empty(true),
    {
        Self::new(true)
    }

    /// An empty input of one line.
    pub fn create_text_label() -> (widget: InputWidget)
        ensures
            widget@ == InputView::empty(false),
    {
        Self::new(false)
    }

    /// A copy of the text.
    pub fn get_current_text(&self) -> (text: String)
        ensures
            text@ == self@.text,
    {
        self.text.clone()
    }

    /// The text on display: the text, followed by the caret while it shows.
    pub fn text_to_show(&self) -> (text: String)
        ensures
            text@ == self@.text_to_show(),
    {
        let mut text_to_show = self.text.clone();
        if let Some(cursor_state) = &self.cursor_state {
            if cursor_state.is_cursor_showing {
                text_to_show.push('|');
            }
        }
        text_to_show
    }
}

impl FocusableWidget for InputWidget {
    open spec fn focus_of(model: InputView) -> FocusState {
        model.focus_state
    }

    /// A change of focus gives a focused input a fresh caret and takes the
    /// caret from one that lost focus; a notification that changes nothing
    /// leaves the caret as it is.
    open spec fn notified(model: InputView, focus_state: FocusState) -> InputView {
        if model.focus_state == focus_state {
            model
        } else {
            InputView {
                focus_state,
                cursor: if focus_state == FocusState::Focused {
                    Some(CursorView::fresh())
                } else {
                    None
                },
                ..model
            }
        }
    }

    /// A key that edits the text of a focused input also shows the caret
    /// anew; other keys, and all keys while not focused, change nothing.
    open spec fn keyed(model: InputView, key: Key) -> InputView {
        if model.focus_state == FocusState::NotFocused {
            model
        } else {
            match model.edited(key) {
                Some(text) => InputView {
                    text,
                    cursor: if model.cursor is Some {
                        Some(CursorView::fresh())
                    } else {
                        None
                    },
                    ..model
                },
                None => model,
            }
        }
    }

    /// Time moves the caret of an input that has one.
    open spec fn aged(model: InputView, duration: Duration) -> InputView {
        match model.cursor {
            Some(cursor) => InputView {
                cursor: Some(cursor.blinked(nanos_of(duration) / nanos_per_milli())),
                ..model
            },
            None => model,
        }
    }

    proof fn lemma_notified_focus(model: InputView, focus_state: FocusState) {
    }

    proof fn lemma_focus_kept(model: InputView, key: Key, duration: Duration) {
    }

    fn focus_state_changed(&mut self, focus_state: FocusState) {
        if self.focus_state == focus_state {
            return ;
        }
        self.focus_state = focus_state;
        if self.focus_state == FocusState::Focused {
            self.cursor_state = Some(
                CursorState {
                    tick_rate_milliseconds_left: CURSOR_TICK_MILLIS,
                    is_cursor_showing: true,
                },
            );
        } else {
            self.cursor_state = None;
        }
    }

    fn get_focus_state(&self) -> (focus_state: FocusState) {
        self.focus_state
    }

    fn process_input(&mut self, key_code: Key) {
        if self.focus_state == FocusState::NotFocused {
            return ;
        }
        let mut modified_text = false;
        match key_code {
            Key::Char(c) => {
                self.text.push(c);
                modified_text = true;
            },
            Key::Backspace => {
                self.text.pop();
                modified_text = true;
            },
            Key::Enter => {
                if self.allow_new_lines {
                    self.text.push('\n');
                    modified_text = true;
                }
            },
            _ => (),
        };
        if modified_text {
            if self.cursor_state.is_some() {
                self.cursor_state = Some(
                    CursorState {
                        tick_rate_milliseconds_left: CURSOR_TICK_MILLIS,
                        is_cursor_showing: true,
                    },
                );
            }
        }
    }

    fn update(&mut self, duration: Duration) {
        let millis: u128 = duration.as_millis();
        if let Some(cursor_state) = &self.cursor_state {
            let elapsed: i64 = if millis > i32::MAX as u128 {
                i32::MAX as i64
            } else {
                millis as i64
            };
            let mut left: i64 = cursor_state.tick_rate_milliseconds_left as i64 - elapsed;
            if left < i32::MIN as i64 {
                left = i32::MIN as i64;
            }
            let mut showing = cursor_state.is_cursor_showing;
            if left <= 0 {
                left = left + CURSOR_TICK_MILLIS as i64;
                showing = !showing;
            }
            self.cursor_state = Some(
                CursorState { tick_rate_milliseconds_left: left as i32, is_cursor_showing: showing },
            );
        }
    }
}

} // verus!
