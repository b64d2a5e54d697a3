//! Keys as the menus and widgets see them.

use vstd::prelude::*;

verus! {

/// A key press. Keys that no menu or widget reads are `Other`.
#[derive(Clone, Copy, Debug, PartialEq, Eq, Structural)]
pub enum Key {
    Up,
    Down,
    Left,
    Right,
    Tab,
    Enter,
    Esc,
    Backspace,
    Char(char),
    Other,
}

} // verus!
