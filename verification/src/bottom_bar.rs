//! The bar at the bottom of a menu that names the keys of its actions.

use crate::key::Key;
use crate::text::uppercase_of;
use vstd::prelude::*;
use vstd::string::StringExecFns;

verus! {

/// What a key of the bottom bar does.
#[derive(Clone, Copy, Debug, PartialEq, Eq, Structural)]
pub enum BottomBarAction {
    CreateTask,
    CreateTaskWithParent,
    Submit,
    Exit,
}

struct BottomBarActionConfig {
    key: Key,
    action: BottomBarAction,
    description: String,
}

/// The actions of a menu, each with its key and the text that the bar shows
/// for it.
pub struct BottomBar {
    actions: Vec<BottomBarActionConfig>,
}

/// Mathematical model of one entry of a [`BottomBar`].
pub struct BottomBarEntry {
    pub key: Key,
    pub action: BottomBarAction,
    pub description: Seq<char>,
}

/// What the bar calls an action.
pub open spec fn action_description(action: BottomBarAction) -> Seq<char> {
    match action {
        BottomBarAction::Exit => "Exit"@,
        BottomBarAction::Submit => "Submit"@,
        BottomBarAction::CreateTask => "Create task"@,
        BottomBarAction::CreateTaskWithParent => "Create subtask"@,
    }
}

/// Whether the bar has a name for `key`.
pub open spec fn key_has_name(key: Key) -> bool {
    key is Char || key is Esc || key is Enter
}

/// What the bar calls a key: a character in upper case, the other keys by
/// their names.
pub open spec fn key_name(key: Key) -> Seq<char>
    recommends
        key_has_name(key),
{
    match key {
        Key::Char(c) => uppercase_of(seq![c]),
        Key::Esc => "Esc"@,
        _ => "Enter"@,
    }
}

/// The text of an entry: the key in brackets, then the action.
pub open spec fn entry_description(key: Key, action: BottomBarAction) -> Seq<char> {
    "["@ + key_name(key) + "] "@ + action_description(action)
}

/// An entry with the text that the bar gives it.
pub open spec fn bar_entry(key: Key, action: BottomBarAction) -> BottomBarEntry {
    BottomBarEntry { key, action, description: entry_description(key, action) }
}

/// The texts of `parts` in a row. A separator stands between a text and what
/// follows it, unless nothing follows.
pub open spec fn joined(parts: Seq<Seq<char>>) -> Seq<char>
    decreases parts.len(),
{
    if parts.len() == 0 {
        Seq::empty()
    } else {
        let tail = joined(parts.drop_first());
        if tail.len() > 0 {
            parts[0] + " | "@ + tail
        } else {
            parts[0]
        }
    }
}

impl View for BottomBarActionConfig {
    type V = BottomBarEntry;

    closed spec fn view(&self) -> BottomBarEntry {
        BottomBarEntry { key: self.key, action: self.action, description: self.description@ }
    }
}

impl View for BottomBar {
    type V = Seq<BottomBarEntry>;

    closed spec fn view(&self) -> Seq<BottomBarEntry> {
        self.actions@.map_values(|a: BottomBarActionConfig| a@)
    }
}

/// The descriptions of the entries of a bar.
pub open spec fn descriptions(entries: Seq<BottomBarEntry>) -> Seq<Seq<char>> {
    entries.map_values(|e: BottomBarEntry| e.description)
}

/// What the bar calls an action.
pub fn get_bottom_bar_action_description(action: BottomBarAction) -> (description: String)
    ensures
        description@ == action_description(action),
{
    match action {
        BottomBarAction::Exit => String::from_str("Exit"),
        BottomBarAction::Submit => String::from_str("Submit"),
        BottomBarAction::CreateTask => String::from_str("Create task"),
        BottomBarAction::CreateTaskWithParent => String::from_str("Create subtask"),
    }
}

/// What the bar calls a key.
pub fn key_to_string(key_code: Key) -> (name: String)
    requires
        key_has_name(key_code),
    ensures
        name@ == key_name(key_code),
{
    match key_code {
        Key::Char(c) => {
            let mut text = String::new();
            text.push(c);
            assert(text@ =~= seq![c]);
            text.as_str().to_uppercase()
        },
        Key::Esc => String::from_str("Esc"),
        _ => String::from_str("Enter"),
    }
}

impl BottomBar {
    /// A bar without actions.
    pub fn new() -> (bar: BottomBar)
        ensures
            bar@ == Seq::<BottomBarEntry>::empty(),
    {
        let bar = BottomBar { actions: Vec::new() };
        assert(bar@ =~= Seq::<BottomBarEntry>::empty());
        bar
    }

    /// Appends an action with its key.
    pub fn add_action(&mut self, key: Key, action: BottomBarAction)
        requires
            key_has_name(key),
        ensures
            final(self)@ == old(self)@.push(bar_entry(key, action)),
    {
        let mut description = String::from_str("[");
        description.append(key_to_string(key).as_str());
        description.append("] ");
        description.append(get_bottom_bar_action_description(action).as_str());
        self.actions.push(BottomBarActionConfig { key, action, description });
        assert(self@ =~= old(self)@.push(bar_entry(key, action)));
    }

    /// Whether the bar has no actions; such a bar takes no room.
    pub fn is_empty(&self) -> (empty: bool)
        ensures
            empty == (self@.len() == 0),
    {
        self.actions.len() == 0
    }

    /// The line that the bar shows: the texts of its entries in a row.
    pub fn text(&self) -> (line: String)
        ensures
            line@ == joined(descriptions(self@)),
    {
        let ghost parts = descriptions(self@);
        let mut line = String::new();
        let mut i: usize = self.actions.len();
        assert(parts.subrange(i as int, parts.len() as int) =~= Seq::empty());
        while i > 0
            invariant
                i <= self.actions.len(),
                parts == descriptions(self@),
                parts.len() == self.actions.len(),
                line@ == joined(parts.subrange(i as int, parts.len() as int)),
            decreases i,
        {
            i = i - 1;
            let ghost tail = parts.subrange(i + 1, parts.len() as int);
            let ghost here = parts.subrange(i as int, parts.len() as int);
            assert(here.drop_first() =~= tail);
            assert(here[0] == self.actions[i as int].description@);
            let mut next = self.actions[i].description.clone();
            if !line.as_str().is_empty() {
                next.append(" | ");
                next.append(line.as_str());
            }
            line = next;
        }
        assert(parts.subrange(0, parts.len() as int) =~= parts);
        line
    }
}

} // verus!
