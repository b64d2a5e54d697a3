//! Focus navigation: which of the widgets of a menu receives the keys.

use crate::key::Key;
use crate::widget::{FocusState, FocusableWidget};
use std::time::Duration;
use vstd::prelude::*;

verus! {

/// Owns the widgets of a menu in their visual order and knows which of them
/// is focused. The menu reaches its widgets through the controller, by
/// their position.
pub struct FocusController<W: FocusableWidget> {
    focusable_widgets: Vec<W>,
    selected_widget: usize,
}

/// Mathematical model of a [`FocusController`]: the models of the widgets
/// and the position of the focused one.
pub struct FocusView<V> {
    pub widgets: Seq<V>,
    pub selected: nat,
}

/// The models of a list of widgets.
pub open spec fn widget_views<W: FocusableWidget>(widgets: Seq<W>) -> Seq<W::V> {
    widgets.map_values(|w: W| w@)
}

/// The controller over `widgets` at its start: the first widget has been
/// told that it is focused.
pub open spec fn started<W: FocusableWidget>(widgets: Seq<W::V>) -> FocusView<W::V> {
    FocusView {
        widgets: if widgets.len() > 0 {
            widgets.update(0, W::notified(widgets[0], FocusState::Focused))
        } else {
            widgets
        },
        selected: 0,
    }
}

/// The controller after the focus has moved to the widget at `to`: the
/// widget that was focused has been told that it lost the focus, then the
/// widget at `to` that it gained it.
pub open spec fn focus_moved<W: FocusableWidget>(model: FocusView<W::V>, to: nat) -> FocusView<
    W::V,
> {
    let left = model.widgets.update(
        model.selected as int,
        W::notified(model.widgets[model.selected as int], FocusState::NotFocused),
    );
    FocusView {
        widgets: left.update(to as int, W::notified(left[to as int], FocusState::Focused)),
        selected: to,
    }
}

/// The controller after a key. `Up` moves the focus one widget back and
/// `Down` or `Tab` one widget on, unless the focus is at that end already;
/// any other key goes to the focused widget. Without widgets nothing
/// happens.
pub open spec fn after_key<W: FocusableWidget>(model: FocusView<W::V>, key: Key) -> FocusView<
    W::V,
> {
    if model.widgets.len() == 0 {
        model
    } else {
        match key {
            Key::Up => if model.selected > 0 {
                focus_moved::<W>(model, (model.selected - 1) as nat)
            } else {
                model
            },
            Key::Down | Key::Tab => if model.selected < model.widgets.len() - 1 {
                focus_moved::<W>(model, model.selected + 1)
            } else {
                model
            },
            _ => FocusView {
                widgets: model.widgets.update(
                    model.selected as int,
                    W::keyed(model.widgets[model.selected as int], key),
                ),
                ..model
            },
        }
    }
}

/// The controller after time has passed: every widget has followed it,
/// focused or not.
pub open spec fn after_update<W: FocusableWidget>(
    model: FocusView<W::V>,
    duration: Duration,
) -> FocusView<W::V> {
    FocusView {
        widgets: Seq::new(model.widgets.len(), |i: int| W::aged(model.widgets[i], duration)),
        ..model
    }
}

/// Exactly the widget at the selected position is focused.
pub open spec fn focus_is_exclusive<W: FocusableWidget>(model: FocusView<W::V>) -> bool {
    forall|i: int|
        0 <= i < model.widgets.len() ==> (W::focus_of(#[trigger] model.widgets[i])
            == FocusState::Focused <==> i == model.selected)
}

/// A controller that starts over widgets none of which is focused has
/// exactly its first widget focused.
pub proof fn lemma_start_focuses_first<W: FocusableWidget>(widgets: Seq<W::V>)
    requires
        forall|i: int|
            0 <= i < widgets.len() ==> W::focus_of(#[trigger] widgets[i]) == FocusState::NotFocused,
    ensures
        focus_is_exclusive::<W>(started::<W>(widgets)),
        started::<W>(widgets).widgets.len() == widgets.len(),
{
    if widgets.len() > 0 {
        W::lemma_notified_focus(widgets[0], FocusState::Focused);
    }
}

/// Keys and time keep the number of widgets, keep the selection on a
/// widget, and keep exactly the selected widget focused.
pub proof fn lemma_focus_stays_exclusive<W: FocusableWidget>(
    model: FocusView<W::V>,
    key: Key,
    duration: Duration,
)
    requires
        model.selected < model.widgets.len(),
        focus_is_exclusive::<W>(model),
    ensures
        after_key::<W>(model, key).widgets.len() == model.widgets.len(),
        after_key::<W>(model, key).selected < model.widgets.len(),
        focus_is_exclusive::<W>(after_key::<W>(model, key)),
        after_update::<W>(model, duration).widgets.len() == model.widgets.len(),
        after_update::<W>(model, duration).selected == model.selected,
        focus_is_exclusive::<W>(after_update::<W>(model, duration)),
{
    let selected = model.selected as int;
    W::lemma_notified_focus(model.widgets[selected], FocusState::NotFocused);
    W::lemma_focus_kept(model.widgets[selected], key, duration);
    if selected > 0 {
        W::lemma_notified_focus(model.widgets[selected - 1], FocusState::Focused);
    }
    if selected < model.widgets.len() - 1 {
        W::lemma_notified_focus(model.widgets[selected + 1], FocusState::Focused);
    }
    let aged = after_update::<W>(model, duration);
    assert forall|i: int| 0 <= i < aged.widgets.len() implies (W::focus_of(
        #[trigger] aged.widgets[i],
    ) == FocusState::Focused <==> i == aged.selected) by {
        W::lemma_focus_kept(model.widgets[i], key, duration);
    }
}

/// At the first widget `Up` changes nothing, and at the last widget neither
/// `Down` nor `Tab` does: no widget is told of anything.
pub proof fn lemma_no_move_past_the_ends<W: FocusableWidget>(model: FocusView<W::V>)
    ensures
        model.selected == 0 ==> after_key::<W>(model, Key::Up) == model,
        model.selected + 1 == model.widgets.len() ==> after_key::<W>(model, Key::Down) == model
            && after_key::<W>(model, Key::Tab) == model,
{
}

impl<W: FocusableWidget> View for FocusController<W> {
    type V = FocusView<W::V>;

    closed spec fn view(&self) -> FocusView<W::V> {
        FocusView {
            widgets: widget_views(self.focusable_widgets@),
            selected: self.selected_widget as nat,
        }
    }
}

impl<W: FocusableWidget> FocusController<W> {
    #[verifier::type_invariant]
    spec fn selection_names_a_widget(self) -> bool {
        self.focusable_widgets@.len() > 0 ==> self.selected_widget < self.focusable_widgets@.len()
    }

    /// A controller over `focusable_widgets`. The first widget, if there is
    /// one, is told that it is focused.
    pub fn new(focusable_widgets: Vec<W>) -> (controller: FocusController<W>)
        ensures
            controller@ == started::<W>(widget_views(focusable_widgets@)),
    {
        let mut focusable_widgets = focusable_widgets;
        let ghost before = widget_views(focusable_widgets@);
        if focusable_widgets.len() > 0 {
            focusable_widgets[0].focus_state_changed(FocusState::Focused);
            assert(widget_views(focusable_widgets@) =~= before.update(
                0,
                W::notified(before[0], FocusState::Focused),
            ));
        }
        FocusController { focusable_widgets, selected_widget: 0 }
    }

    /// Lets every widget follow the time that has passed, focused or not.
    pub fn update(&mut self, duration: Duration)
        ensures
            final(self)@ == after_update::<W>(old(self)@, duration),
    {
        proof {
            use_type_invariant(&*self);
        }
        let ghost before = widget_views(self.focusable_widgets@);
        let count = self.focusable_widgets.len();
        let mut i: usize = 0;
        while i < count
            invariant
                i <= count,
                count == self.focusable_widgets.len(),
                before.len() == count,
                self.selected_widget == old(self).selected_widget,
                self.focusable_widgets@.len() > 0 ==> self.selected_widget
                    < self.focusable_widgets@.len(),
                forall|j: int|
                    0 <= j < i ==> (#[trigger] self.focusable_widgets[j])@ == W::aged(
                        before[j],
                        duration,
                    ),
                forall|j: int|
                    i <= j < count ==> (#[trigger] self.focusable_widgets[j])@ == before[j],
            decreases count - i,
        {
            self.focusable_widgets[i].update(duration);
            i = i + 1;
        }
        assert(self@.widgets =~= after_update::<W>(old(self)@, duration).widgets);
    }

    /// Handles a key: `Up` moves the focus one widget back, `Down` and `Tab`
    /// one widget on, each only if the focus is not at that end already;
    /// the widget that loses the focus is told first, then the one that
    /// gains it. Any other key goes to the focused widget.
    pub fn process_input(&mut self, key_code: Key)
        ensures
            final(self)@ == after_key::<W>(old(self)@, key_code),
    {
        proof {
            use_type_invariant(&*self);
        }
        if self.focusable_widgets.len() == 0 {
            return ;
        }
        let ghost before = widget_views(self.focusable_widgets@);
        let selected = self.selected_widget;
        match key_code {
            Key::Up => {
                if selected > 0 {
                    self.focusable_widgets[selected].focus_state_changed(FocusState::NotFocused);
                    self.focusable_widgets[selected - 1].focus_state_changed(FocusState::Focused);
                    self.selected_widget = selected - 1;
                    assert(self@.widgets =~= focus_moved::<W>(
                        old(self)@,
                        (selected - 1) as nat,
                    ).widgets);
                }
            },
            Key::Down | Key::Tab => {
                if selected < self.focusable_widgets.len() - 1 {
                    self.focusable_widgets[selected].focus_state_changed(FocusState::NotFocused);
                    self.focusable_widgets[selected + 1].focus_state_changed(FocusState::Focused);
                    self.selected_widget = selected + 1;
                    assert(self@.widgets =~= focus_moved::<W>(
                        old(self)@,
                        (selected + 1) as nat,
                    ).widgets);
                }
            },
            _ => {
                self.focusable_widgets[selected].process_input(key_code);
                assert(self@.widgets =~= before.update(
                    selected as int,
                    W::keyed(before[selected as int], key_code),
                ));
            },
        }
    }

    /// The number of widgets.
    pub fn len(&self) -> (count: usize)
        ensures
            count == self@.widgets.len(),
    {
        self.focusable_widgets.len()
    }

    /// The position of the focused widget. It names a widget if there is
    /// any.
    pub fn selected_widget(&self) -> (selected: usize)
        ensures
            selected == self@.selected,
            self@.widgets.len() > 0 ==> selected < self@.widgets.len(),
    {
        proof {
            use_type_invariant(self);
        }
        self.selected_widget
    }

    /// The widget at `position`.
    pub fn widget(&self, position: usize) -> (widget: &W)
        requires
            position < self@.widgets.len(),
        ensures
            widget@ == self@.widgets[position as int],
    {
        &self.focusable_widgets[position]
    }

    /// The focused widget, if there is a widget at all.
    pub fn get_focused_widget(&self) -> (widget: Option<&W>)
        ensures
            match widget {
                Some(w) => self@.selected < self@.widgets.len() && w@
                    == self@.widgets[self@.selected as int],
                None => self@.widgets.len() == 0,
            },
    {
        proof {
            use_type_invariant(self);
        }
        if self.focusable_widgets.len() == 0 {
            None
        } else {
            Some(&self.focusable_widgets[self.selected_widget])
        }
    }
}

} // verus!
