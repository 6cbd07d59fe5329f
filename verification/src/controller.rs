//! The visibility debounce controller.
//!
//! The window system delivers focus-lost, focus-gained and icon-click
//! notifications in no guaranteed order relative to each other or to the
//! expiry of the debounce timers that focus losses schedule. The controller
//! is level-triggered: a timer that expires hides the window only if the
//! hide intent recorded by the most recent focus loss is still current, so
//! the outcome depends on the latest value of the flag, never on how many
//! timers were scheduled or in which order events raced.

use vstd::prelude::*;

verus! {

/// Whether the popover window is currently shown.
#[derive(Clone, Copy, PartialEq, Eq, Structural, Debug)]
pub enum VisibilityState {
    Visible,
    Hidden,
}

/// An effect the controller asks the window system to perform. The window
/// system must tolerate `Hide` when already hidden and `ShowAndFocus` when
/// already visible.
#[derive(Clone, Copy, PartialEq, Eq, Structural, Debug)]
pub enum Command {
    /// Start a debounce timer; when it expires, report it via `on_timer_expired`.
    ScheduleHideTimer,
    /// Hide the window.
    Hide,
    /// Show the window and give it input focus.
    ShowAndFocus,
}

/// An input the controller reacts to: the three external notifications and
/// the expiry of a previously scheduled debounce timer.
#[derive(Clone, Copy, PartialEq, Eq, Structural, Debug)]
pub enum Event {
    FocusLost,
    FocusGained,
    IconActivated,
    TimerExpiry,
}

/// The controller's whole state: the authoritative visibility decision and
/// the shared hide-intent flag ("a hide is pending and has not been
/// cancelled"). Each event handler is one atomic step; the caller serializes
/// handlers and timer expiries (a mutex around the controller suffices).
pub struct VisibilityController {
    pub visibility: VisibilityState,
    pub hide_intent: bool,
}

/// What one event does to the controller state. This is the whole policy:
/// a focus loss records the intent to hide, a focus gain or an icon click
/// cancels it, and an expiring timer acts on the intent only if it is still
/// current.
pub open spec fn step(s: VisibilityController, e: Event) -> VisibilityController {
    match e {
        Event::FocusLost => VisibilityController { hide_intent: true, ..s },
        Event::FocusGained => VisibilityController { hide_intent: false, ..s },
        Event::IconActivated => VisibilityController {
            visibility: VisibilityState::Visible,
            hide_intent: false,
        },
        Event::TimerExpiry => if s.hide_intent {
            VisibilityController { visibility: VisibilityState::Hidden, ..s }
        } else {
            s
        },
    }
}

/// The state after a whole sequence of events, applied left to right.
pub open spec fn run_events(s: VisibilityController, es: Seq<Event>) -> VisibilityController
    decreases es.len(),
{
    if es.len() == 0 {
        s
    } else {
        step(run_events(s, es.drop_last()), es.last())
    }
}

/// What a command does to the window: the effect layer that the window
/// system implements. Both visibility commands are absolute, so they are
/// safe to issue redundantly.
pub open spec fn apply_command(v: VisibilityState, c: Command) -> VisibilityState {
    match c {
        Command::ScheduleHideTimer => v,
        Command::Hide => VisibilityState::Hidden,
        Command::ShowAndFocus => VisibilityState::Visible,
    }
}

impl VisibilityController {
    /// A fresh controller: the window starts shown and no hide is pending.
    pub fn new() -> (c: Self)
        ensures
            c.visibility == VisibilityState::Visible,
            !c.hide_intent,
    {
        VisibilityController {
            visibility: VisibilityState::Visible,
            hide_intent: false,
        }
    }

    /// The window lost input focus: record the intent to hide and ask the
    /// caller to schedule a debounce timer. Overlapping calls are harmless:
    /// the flag simply stays set and one more timer is scheduled.
    pub fn on_focus_lost(&mut self) -> (cmd: Command)
        ensures
            *final(self) == step(*old(self), Event::FocusLost),
            final(self).hide_intent,
            final(self).visibility == old(self).visibility,
            cmd == Command::ScheduleHideTimer,
    {
        self.hide_intent = true;
        Command::ScheduleHideTimer
    }

    /// The window regained input focus: cancel any pending hide. No timer is
    /// cancelled explicitly; in-flight timers become no-ops because they
    /// re-check the flag at expiry.
    pub fn on_focus_gained(&mut self)
        ensures
            *final(self) == step(*old(self), Event::FocusGained),
            !final(self).hide_intent,
            final(self).visibility == old(self).visibility,
    {
        self.hide_intent = false;
    }

    /// The status-area icon was clicked: cancel any pending hide and show
    /// the window with focus, whatever the prior state was.
    pub fn on_icon_activated(&mut self) -> (cmd: Command)
        ensures
            *final(self) == step(*old(self), Event::IconActivated),
            final(self).visibility == VisibilityState::Visible,
            !final(self).hide_intent,
            cmd == Command::ShowAndFocus,
            apply_command(old(self).visibility, cmd) == final(self).visibility,
    {
        self.hide_intent = false;
        self.visibility = VisibilityState::Visible;
        Command::ShowAndFocus
    }

    /// A debounce timer expired: hide the window if the intent recorded at
    /// the focus loss is still current, otherwise do nothing. The flag is
    /// read, not cleared, so every in-flight timer converges to the same
    /// outcome.
    pub fn on_timer_expired(&mut self) -> (cmd: Option<Command>)
        ensures
            *final(self) == step(*old(self), Event::TimerExpiry),
            final(self).hide_intent == old(self).hide_intent,
            old(self).hide_intent ==> final(self).visibility == VisibilityState::Hidden
                && cmd == Some(Command::Hide),
            !old(self).hide_intent ==> *final(self) == *old(self) && cmd is None,
            cmd matches Some(c) ==> apply_command(old(self).visibility, c) == final(self).visibility,
    {
        if self.hide_intent {
            self.visibility = VisibilityState::Hidden;
            Some(Command::Hide)
        } else {
            None
        }
    }
}

} // verus!
