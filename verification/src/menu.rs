//! The life of a menu and the loop that drives it. The loop is a state
//! machine: it names the next thing to do on the terminal, the surroundings
//! do it and report back, and the machine decides what follows.

use crate::key::Key;
use crate::time::nanos_of;
use std::io;
use std::time::Duration;
use vstd::prelude::*;

verus! {

/// The error of the render and input surface.
#[verifier::external_type_specification]
#[verifier::external_body]
pub struct ExIoError(io::Error);

/// What a menu answers to a key when the key ends something.
pub enum MenuEvent<T> {
    /// The menu is finished and yields its result.
    Quit(T),
    /// A menu nested in this one has finished; its outcome goes up to the
    /// loop without ending this menu, unless it is a failure.
    MenuExecutionResult(Result<(), io::Error>),
}

/// Where a menu is in its life.
#[derive(Clone, Copy, Debug, PartialEq, Eq, Structural)]
pub enum MenuPhase {
    Uninitialized,
    Running,
    Terminated,
}

/// What the loop waits for.
#[derive(Clone, Copy, Debug, PartialEq, Eq, Structural)]
pub enum LoopStage {
    /// Nothing has happened yet.
    Uninitialized,
    /// The menu is being initialized.
    Initializing,
    /// A frame is being drawn.
    Rendering,
    /// The surroundings wait for an input event.
    Polling,
    /// An input event is being read.
    Reading,
    /// The menu is handling a key.
    Dispatching,
    /// The menu is following the time.
    Updating,
    /// The loop has ended.
    Terminated,
}

/// What the loop asks its surroundings to do next.
pub enum LoopAction<T> {
    /// Initialize the menu.
    Initialize,
    /// Draw a frame of the menu.
    Render,
    /// Wait for an input event, no longer than this.
    Poll(Duration),
    /// Read the input event that is ready.
    Read,
    /// Hand the key to the menu.
    Dispatch(Key),
    /// Let the menu follow this much time, and start the clock of the tick
    /// anew.
    Update(Duration),
    /// Leave the loop with this result.
    Finish(Result<T, io::Error>),
}

/// What the surroundings report after they have done what was asked.
pub enum LoopReport<T> {
    /// The menu is initialized.
    Initialized,
    /// The frame was drawn, or drawing failed.
    Rendered(Result<(), io::Error>),
    /// Whether an input event is ready, or waiting failed.
    Polled(Result<bool, io::Error>),
    /// The key of the event that was read, if it was a key, or reading
    /// failed.
    Read(Result<Option<Key>, io::Error>),
    /// What the menu answered to the key.
    Answered(Option<MenuEvent<T>>),
    /// The menu has followed the time.
    Updated,
}

/// Milliseconds of one tick of the loop.
pub const TICK_MILLIS: u64 = 33;

/// The result with which the loop of a menu ends after the menu has
/// answered `event` to a key, if the loop ends: a menu that quits ends it
/// with its result, the failure of a nested menu ends it with that failure.
pub open spec fn outcome_of<T>(event: Option<MenuEvent<T>>) -> Option<Result<T, io::Error>> {
    match event {
        Some(MenuEvent::Quit(result)) => Some(Ok(result)),
        Some(MenuEvent::MenuExecutionResult(Err(error))) => Some(Err(error)),
        _ => None,
    }
}

/// The phase of the menu while its loop is at `stage`.
pub open spec fn phase_of(stage: LoopStage) -> MenuPhase {
    match stage {
        LoopStage::Uninitialized | LoopStage::Initializing => MenuPhase::Uninitialized,
        LoopStage::Terminated => MenuPhase::Terminated,
        _ => MenuPhase::Running,
    }
}

/// Whether `report` is the report that the loop waits for at `stage`.
pub open spec fn awaited<T>(stage: LoopStage, report: LoopReport<T>) -> bool {
    match stage {
        LoopStage::Initializing => report is Initialized,
        LoopStage::Rendering => report is Rendered,
        LoopStage::Polling => report is Polled,
        LoopStage::Reading => report is Read,
        LoopStage::Dispatching => report is Answered,
        LoopStage::Updating => report is Updated,
        _ => false,
    }
}

/// Whether the tick is over after `elapsed` nanoseconds.
pub open spec fn tick_over(tick: nat, elapsed: nat) -> bool {
    elapsed >= tick
}

/// What is left of the tick after `elapsed` nanoseconds.
pub open spec fn rest_of_tick(tick: nat, elapsed: nat) -> nat {
    if tick >= elapsed {
        (tick - elapsed) as nat
    } else {
        0
    }
}

/// What the surface failed with, if `report` tells of a failure.
pub open spec fn failure_of<T>(report: LoopReport<T>) -> Option<io::Error> {
    match report {
        LoopReport::Rendered(Err(error)) => Some(error),
        LoopReport::Polled(Err(error)) => Some(error),
        LoopReport::Read(Err(error)) => Some(error),
        _ => None,
    }
}

/// Whether the round is over with `report`: no event was ready, the event
/// was no key, or the menu has answered a key without ending anything.
pub open spec fn round_over<T>(report: LoopReport<T>) -> bool {
    match report {
        LoopReport::Polled(Ok(ready)) => !ready,
        LoopReport::Read(Ok(key)) => key is None,
        LoopReport::Answered(event) => outcome_of(event) is None,
        _ => false,
    }
}

/// The stage that follows `report`, with `elapsed` nanoseconds gone since
/// the clock of the tick was started. A failure of the surface and an
/// answer of the menu that ends the loop terminate it. After the
/// initialization and after the menu has followed the time a frame is
/// drawn; after the frame the loop waits for an event; an event that is
/// ready is read and its key handed to the menu; and once a round is over
/// the menu follows the time if the tick is over, else the next frame is
/// drawn.
pub open spec fn next_stage<T>(report: LoopReport<T>, tick: nat, elapsed: nat) -> LoopStage {
    if failure_of(report) is Some {
        LoopStage::Terminated
    } else if round_over(report) {
        if tick_over(tick, elapsed) {
            LoopStage::Updating
        } else {
            LoopStage::Rendering
        }
    } else {
        match report {
            LoopReport::Initialized | LoopReport::Updated => LoopStage::Rendering,
            LoopReport::Rendered(_) => LoopStage::Polling,
            LoopReport::Polled(_) => LoopStage::Reading,
            LoopReport::Read(_) => LoopStage::Dispatching,
            LoopReport::Answered(_) => LoopStage::Terminated,
        }
    }
}

/// Whether `action` is what the loop asks for when it enters `stage` on
/// `report`.
pub open spec fn asks_for<T>(
    action: LoopAction<T>,
    stage: LoopStage,
    report: LoopReport<T>,
    tick: nat,
    elapsed: Duration,
) -> bool {
    match stage {
        LoopStage::Rendering => action is Render,
        LoopStage::Polling => action matches LoopAction::Poll(timeout) && nanos_of(timeout)
            == rest_of_tick(tick, nanos_of(elapsed)),
        LoopStage::Reading => action is Read,
        LoopStage::Dispatching => report matches LoopReport::Read(Ok(Some(key))) && action
            == LoopAction::<T>::Dispatch(key),
        LoopStage::Updating => action == LoopAction::<T>::Update(elapsed),
        LoopStage::Terminated => action matches LoopAction::Finish(result) && match report {
            LoopReport::Answered(event) => outcome_of(event) == Some(result),
            _ => failure_of(report) matches Some(error) && result == Err::<T, io::Error>(error),
        },
        _ => false,
    }
}

/// The decisions of the loop that drives one menu.
pub struct MenuLoop {
    stage: LoopStage,
    tick_rate: Duration,
}

impl MenuLoop {
    /// What the loop waits for.
    pub closed spec fn stage(&self) -> LoopStage {
        self.stage
    }

    /// Where the menu is in its life.
    pub open spec fn phase(&self) -> MenuPhase {
        phase_of(self.stage())
    }

    /// The length of a tick in nanoseconds.
    pub closed spec fn tick_nanos(&self) -> nat {
        nanos_of(self.tick_rate)
    }

    /// The loop of a menu that has not been initialized.
    pub fn new() -> (menu_loop: MenuLoop)
        ensures
            menu_loop.stage() == LoopStage::Uninitialized,
            menu_loop.tick_nanos() == TICK_MILLIS * 1_000_000,
    {
        MenuLoop { stage: LoopStage::Uninitialized, tick_rate: Duration::from_millis(TICK_MILLIS) }
    }

    /// What the loop waits for.
    pub fn current_stage(&self) -> (stage: LoopStage)
        ensures
            stage == self.stage(),
    {
        self.stage
    }

    /// Where the menu is in its life.
    pub fn current_phase(&self) -> (phase: MenuPhase)
        ensures
            phase == self.phase(),
    {
        match self.stage {
            LoopStage::Uninitialized | LoopStage::Initializing => MenuPhase::Uninitialized,
            LoopStage::Terminated => MenuPhase::Terminated,
            _ => MenuPhase::Running,
        }
    }

    /// Whether `report` is the report that the loop waits for.
    pub fn awaits<T>(&self, report: &LoopReport<T>) -> (awaited: bool)
        ensures
            awaited == self::awaited(self.stage(), *report),
    {
        match (self.stage, report) {
            (LoopStage::Initializing, LoopReport::Initialized) => true,
            (LoopStage::Rendering, LoopReport::Rendered(_)) => true,
            (LoopStage::Polling, LoopReport::Polled(_)) => true,
            (LoopStage::Reading, LoopReport::Read(_)) => true,
            (LoopStage::Dispatching, LoopReport::Answered(_)) => true,
            (LoopStage::Updating, LoopReport::Updated) => true,
            _ => false,
        }
    }

    /// Starts the loop: the menu is to be initialized, once, before
    /// anything else. Returns `None`, and changes nothing, if the loop has
    /// been started before.
    pub fn begin<T>(&mut self) -> (action: Option<LoopAction<T>>)
        ensures
            final(self).tick_nanos() == old(self).tick_nanos(),
            action == if old(self).stage() == LoopStage::Uninitialized {
                Some(LoopAction::<T>::Initialize)
            } else {
                None
            },
            final(self).stage() == if old(self).stage() == LoopStage::Uninitialized {
                LoopStage::Initializing
            } else {
                old(self).stage()
            },
    {
        if self.stage == LoopStage::Uninitialized {
            self.stage = LoopStage::Initializing;
            Some(LoopAction::Initialize)
        } else {
            None
        }
    }

    /// How long to wait for a key: what is left of the tick after `elapsed`,
    /// nothing if the tick is over.
    pub fn poll_timeout(&self, elapsed: Duration) -> (timeout: Duration)
        ensures
            nanos_of(timeout) == rest_of_tick(self.tick_nanos(), nanos_of(elapsed)),
    {
        match self.tick_rate.checked_sub(elapsed) {
            Some(left) => left,
            None => Duration::from_millis(0),
        }
    }

    /// Whether a tick has passed, so that the menu follows the time and the
    /// clock starts anew.
    pub fn tick_due(&self, elapsed: Duration) -> (due: bool)
        ensures
            due == tick_over(self.tick_nanos(), nanos_of(elapsed)),
    {
        elapsed.checked_sub(self.tick_rate).is_some()
    }

    /// Evaluates what the menu answered to a key: the result of the loop,
    /// if the answer ends the loop.
    pub fn on_event<T>(event: Option<MenuEvent<T>>) -> (outcome: Option<Result<T, io::Error>>)
        ensures
            outcome == outcome_of(event),
    {
        match event {
            Some(MenuEvent::Quit(result)) => Some(Ok(result)),
            Some(MenuEvent::MenuExecutionResult(Err(error))) => Some(Err(error)),
            _ => None,
        }
    }

    fn end_round<T>(&mut self, elapsed: Duration) -> (action: LoopAction<T>)
        ensures
            final(self).tick_nanos() == old(self).tick_nanos(),
            tick_over(old(self).tick_nanos(), nanos_of(elapsed)) ==> final(self).stage()
                == LoopStage::Updating && action == LoopAction::<T>::Update(elapsed),
            !tick_over(old(self).tick_nanos(), nanos_of(elapsed)) ==> final(self).stage()
                == LoopStage::Rendering && action is Render,
    {
        if self.tick_due(elapsed) {
            self.stage = LoopStage::Updating;
            LoopAction::Update(elapsed)
        } else {
            self.stage = LoopStage::Rendering;
            LoopAction::Render
        }
    }

    fn fail<T>(&mut self, error: io::Error) -> (action: LoopAction<T>)
        ensures
            final(self).tick_nanos() == old(self).tick_nanos(),
            final(self).stage() == LoopStage::Terminated,
            action == LoopAction::<T>::Finish(Err(error)),
    {
        self.stage = LoopStage::Terminated;
        LoopAction::Finish(Err(error))
    }

    /// Takes the report of what was asked for and decides what follows.
    /// `elapsed` is the time since the clock of the tick was started.
    pub fn step<T>(&mut self, report: LoopReport<T>, elapsed: Duration) -> (action: LoopAction<T>)
        requires
            awaited(old(self).stage(), report),
        ensures
            final(self).tick_nanos() == old(self).tick_nanos(),
            final(self).stage() == next_stage(report, old(self).tick_nanos(), nanos_of(elapsed)),
            asks_for(action, final(self).stage(), report, old(self).tick_nanos(), elapsed),
    {
        match report {
            LoopReport::Initialized | LoopReport::Updated => {
                self.stage = LoopStage::Rendering;
                LoopAction::Render
            },
            LoopReport::Rendered(Ok(_)) => {
                self.stage = LoopStage::Polling;
                LoopAction::Poll(self.poll_timeout(elapsed))
            },
            LoopReport::Polled(Ok(ready)) => {
                if ready {
                    self.stage = LoopStage::Reading;
                    LoopAction::Read
                } else {
                    self.end_round(elapsed)
                }
            },
            LoopReport::Read(Ok(Some(key))) => {
                self.stage = LoopStage::Dispatching;
                LoopAction::Dispatch(key)
            },
            LoopReport::Read(Ok(None)) => self.end_round(elapsed),
            LoopReport::Answered(event) => {
                match Self::on_event(event) {
                    Some(result) => {
                        self.stage = LoopStage::Terminated;
                        LoopAction::Finish(result)
                    },
                    None => self.end_round(elapsed),
                }
            },
            LoopReport::Rendered(Err(error)) => self.fail(error),
            LoopReport::Polled(Err(error)) => self.fail(error),
            LoopReport::Read(Err(error)) => self.fail(error),
        }
    }
}

/// The life of a menu goes one way: a step of the loop never takes a menu
/// that runs back to the time before its initialization, the only step that
/// starts a menu running is the one that follows its initialization, and a
/// loop that has terminated waits for nothing more.
pub proof fn lemma_menu_life_goes_one_way<T>(
    stage: LoopStage,
    report: LoopReport<T>,
    tick: nat,
    elapsed: nat,
)
    requires
        awaited(stage, report),
    ensures
        phase_of(stage) != MenuPhase::Terminated,
        phase_of(next_stage(report, tick, elapsed)) != MenuPhase::Uninitialized,
        phase_of(stage) == MenuPhase::Uninitialized <==> report is Initialized,
        forall|other: LoopReport<T>| !awaited(LoopStage::Terminated, other),
{
}

/// The loop terminates exactly on a failure of the surface or on an answer
/// of the menu that ends it. A menu that quits with a value ends its loop
/// with exactly that value.
pub proof fn lemma_loop_ends_on_quit_or_failure<T>(
    report: LoopReport<T>,
    tick: nat,
    elapsed: nat,
    value: T,
)
    ensures
        next_stage(report, tick, elapsed) == LoopStage::Terminated <==> failure_of(report) is Some
            || (report matches LoopReport::Answered(event) && outcome_of(event) is Some),
        outcome_of(Some(MenuEvent::Quit(value))) == Some(Ok::<T, io::Error>(value)),
        next_stage(LoopReport::Answered(Some(MenuEvent::Quit(value))), tick, elapsed)
            == LoopStage::Terminated,
{
}

} // verus!
