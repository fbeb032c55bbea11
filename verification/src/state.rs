//! The record the debouncer keeps between events, and its mathematical model.

use vstd::prelude::*;

verus! {

/// What is to be done with one button transition.
#[derive(Clone, Copy, Debug, PartialEq, Eq, Structural)]
pub enum Decision {
    /// Hand the event on to the rest of the system.
    Pass,
    /// Swallow the event.
    Suppress,
}

/// A transition of the button.
#[derive(Clone, Copy, Debug, PartialEq, Eq, Structural)]
pub enum ButtonEvent {
    /// The button went down.
    Down,
    /// The button came up.
    Up,
}

/// Time that has gone by from `earlier` to `later`; none if the clock
/// stepped backwards.
pub open spec fn elapsed(earlier: int, later: int) -> int {
    if later >= earlier {
        later - earlier
    } else {
        0
    }
}

/// The debouncer's memory as plain mathematics: times are integers and the
/// count of pending releases is unbounded.
pub struct ClickModel {
    /// Time of the most recent accepted press, if there was one.
    pub last_down: Option<int>,
    /// Presses that were swallowed and whose release has not been swallowed yet.
    pub pending: nat,
}

impl ClickModel {
    /// The memory before any event.
    pub open spec fn initial() -> ClickModel {
        ClickModel { last_down: None, pending: 0 }
    }

    /// A press at `now` is a bounce when an accepted press lies less than
    /// `threshold` before it.
    pub open spec fn is_bounce(self, threshold: int, now: int) -> bool {
        self.last_down matches Some(t) && elapsed(t, now) < threshold
    }

    /// The decision on a press at `now`.
    pub open spec fn down_decision(self, threshold: int, now: int) -> Decision {
        if self.is_bounce(threshold, now) {
            Decision::Suppress
        } else {
            Decision::Pass
        }
    }

    /// The memory after a press at `now`: a bounce adds one pending release
    /// and leaves the reference time alone, an accepted press becomes the new
    /// reference time.
    pub open spec fn after_down(self, threshold: int, now: int) -> ClickModel {
        if self.is_bounce(threshold, now) {
            ClickModel { last_down: self.last_down, pending: self.pending + 1 }
        } else {
            ClickModel { last_down: Some(now), pending: self.pending }
        }
    }

    /// The decision on a release.
    pub open spec fn up_decision(self) -> Decision {
        if self.pending > 0 {
            Decision::Suppress
        } else {
            Decision::Pass
        }
    }

    /// The memory after a release: one pending release fewer, if there was one.
    pub open spec fn after_up(self) -> ClickModel {
        if self.pending > 0 {
            ClickModel { last_down: self.last_down, pending: (self.pending - 1) as nat }
        } else {
            self
        }
    }

    /// The memory after `n` releases in a row.
    pub open spec fn after_ups(self, n: nat) -> ClickModel
        decreases n,
    {
        if n == 0 {
            self
        } else {
            self.after_ups((n - 1) as nat).after_up()
        }
    }

    /// The memory after presses at `times`, in that order.
    pub open spec fn after_downs(self, threshold: int, times: Seq<int>) -> ClickModel
        decreases times.len(),
    {
        if times.len() == 0 {
            self
        } else {
            self.after_downs(threshold, times.drop_last()).after_down(threshold, times.last())
        }
    }

    /// The decision on one transition at `now`.
    pub open spec fn decision_on(self, threshold: int, event: ButtonEvent, now: int) -> Decision {
        match event {
            ButtonEvent::Down => self.down_decision(threshold, now),
            ButtonEvent::Up => self.up_decision(),
        }
    }

    /// The memory after one transition at `now`.
    pub open spec fn after_event(self, threshold: int, event: ButtonEvent, now: int) -> ClickModel {
        match event {
            ButtonEvent::Down => self.after_down(threshold, now),
            ButtonEvent::Up => self.after_up(),
        }
    }

    /// The memory after the transitions of `events`, each with its time, in
    /// that order.
    pub open spec fn after_events(self, threshold: int, events: Seq<(ButtonEvent, int)>) -> ClickModel
        decreases events.len(),
    {
        if events.len() == 0 {
            self
        } else {
            self.after_events(threshold, events.drop_last()).after_event(
                threshold,
                events.last().0,
                events.last().1,
            )
        }
    }

    /// How many transitions of the given kind are swallowed in the course of
    /// `events`.
    pub open spec fn swallowed(
        self,
        threshold: int,
        events: Seq<(ButtonEvent, int)>,
        kind: ButtonEvent,
    ) -> nat
        decreases events.len(),
    {
        if events.len() == 0 {
            0
        } else {
            let before = self.after_events(threshold, events.drop_last());
            let last = events.last();
            let here: nat = if last.0 == kind && before.decision_on(threshold, last.0, last.1)
                == Decision::Suppress {
                1
            } else {
                0
            };
            self.swallowed(threshold, events.drop_last(), kind) + here
        }
    }
}

/// The debouncer's memory.
#[derive(Clone, Copy, Debug, PartialEq, Eq, Structural)]
pub struct ClickState {
    /// Time of the most recent accepted press.
    pub last_down_time: Option<u64>,
    /// Number of swallowed presses whose release is still to be swallowed.
    pub suppressed_pending: usize,
}

impl View for ClickState {
    type V = ClickModel;

    open spec fn view(&self) -> ClickModel {
        ClickModel {
            last_down: match self.last_down_time {
                Some(t) => Some(t as int),
                None => None,
            },
            pending: self.suppressed_pending as nat,
        }
    }
}

impl ClickState {
    /// The memory at start: no press seen, nothing pending.
    pub fn new() -> (state: ClickState)
        ensures
            state.last_down_time is None,
            state.suppressed_pending == 0,
            state@ == ClickModel::initial(),
    {
        ClickState { last_down_time: None, suppressed_pending: 0 }
    }
}

} // verus!
