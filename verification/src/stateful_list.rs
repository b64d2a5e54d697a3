//! A list with a cursor: the items on display and the selection that the
//! list widget of the terminal library keeps for them.

use tui::widgets::ListState;
use vstd::prelude::*;

verus! {

/// The selection state of the terminal library's list widget.
#[verifier::external_type_specification]
#[verifier::external_body]
pub struct ExListState(ListState);

/// The index that a [`ListState`] holds as selected.
pub uninterp spec fn selected_of(state: ListState) -> Option<usize>;

/// `ListState::default`: the derived default, in which nothing is selected.
pub assume_specification[ <ListState as Default>::default ]() -> (state: ListState)
    ensures
        selected_of(state) is None,
;

/// `ListState::selected` returns the index that the state holds.
pub assume_specification[ ListState::selected ](state: &ListState) -> (index: Option<usize>)
    ensures
        index == selected_of(*state),
;

/// `ListState::select` stores `index` as the selected index.
pub assume_specification[ ListState::select ](state: &mut ListState, index: Option<usize>)
    ensures
        selected_of(*final(state)) == index,
;

/// The selection after a step forward in a list of `len` items: one further,
/// from the last item back to the first; the first item if nothing was
/// selected. An empty list keeps its selection.
pub open spec fn selection_after_next(selected: Option<usize>, len: nat) -> Option<usize> {
    if len == 0 {
        selected
    } else {
        match selected {
            Some(i) => if i >= len - 1 {
                Some(0)
            } else {
                Some((i + 1) as usize)
            },
            None => Some(0),
        }
    }
}

/// The selection after a step back in a list of `len` items: one back, from
/// the first item on to the last; the first item if nothing was selected. An
/// empty list keeps its selection.
pub open spec fn selection_after_previous(selected: Option<usize>, len: nat) -> Option<usize> {
    if len == 0 {
        selected
    } else {
        match selected {
            Some(i) => if i == 0 {
                Some((len - 1) as usize)
            } else {
                Some((i - 1) as usize)
            },
            None => Some(0),
        }
    }
}

/// Items on display together with the selection among them.
pub struct StatefulList<T> {
    pub state: ListState,
    pub items: Vec<T>,
}

impl<T> StatefulList<T> {
    /// The index that is selected.
    pub open spec fn selection(&self) -> Option<usize> {
        selected_of(self.state)
    }

    /// An empty list in which nothing is selected.
    pub fn new() -> (list: StatefulList<T>)
        ensures
            list.selection() is None,
            list.items@ == Seq::<T>::empty(),
    {
        StatefulList { state: ListState::default(), items: Vec::new() }
    }

    /// A list of `items` with the first position selected.
    pub fn with_items(items: Vec<T>) -> (list: StatefulList<T>)
        ensures
            list.selection() == Some(0usize),
            list.items == items,
    {
        let mut state = ListState::default();
        state.select(Some(0));
        StatefulList { state, items }
    }

    /// The index that is selected.
    pub fn selected(&self) -> (index: Option<usize>)
        ensures
            index == self.selection(),
    {
        self.state.selected()
    }

    /// Moves the selection one item forward, around the end.
    pub fn next(&mut self)
        ensures
            final(self).items == old(self).items,
            final(self).selection() == selection_after_next(
                old(self).selection(),
                old(self).items@.len(),
            ),
            old(self).items@.len() == 0 ==> final(self).state == old(self).state,
    {
        if self.items.len() == 0 {
            return ;
        }
        let i: usize = match self.state.selected() {
            Some(i) => {
                if i >= self.items.len() - 1 {
                    0
                } else {
                    i + 1
                }
            },
            None => 0,
        };
        self.state.select(Some(i));
    }

    /// Moves the selection one item back, around the start.
    pub fn previous(&mut self)
        ensures
            final(self).items == old(self).items,
            final(self).selection() == selection_after_previous(
                old(self).selection(),
                old(self).items@.len(),
            ),
            old(self).items@.len() == 0 ==> final(self).state == old(self).state,
    {
        if self.items.len() == 0 {
            return ;
        }
        let i: usize = match self.state.selected() {
            Some(i) => {
                if i == 0 {
                    self.items.len() - 1
                } else {
                    i - 1
                }
            },
            None => 0,
        };
        self.state.select(Some(i));
    }
}

} // verus!
