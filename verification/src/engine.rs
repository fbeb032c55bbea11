//! The debounce engine: one decision per button transition.

use vstd::prelude::*;
use crate::state::{ClickModel, ClickState, Decision};

verus! {

/// Threshold used where the caller has no preference, in milliseconds.
pub const DEFAULT_THRESHOLD_MILLIS: u64 = 250;

/// The engine: a threshold fixed at construction and the memory of what was
/// accepted and swallowed so far.
///
/// Times and the threshold are counted in one unit of the caller's choice.
pub struct Debouncer {
    threshold: u64,
    state: ClickState,
}

impl View for Debouncer {
    type V = ClickModel;

    closed spec fn view(&self) -> ClickModel {
        self.state@
    }
}

impl Debouncer {
    /// The window after an accepted press in which further presses are noise.
    pub closed spec fn window(&self) -> int {
        self.threshold as int
    }

    /// The memory after a press at `now`. It follows the model but for one
    /// case: a bounce that finds the count at the top of its range leaves
    /// the memory as it was.
    pub open spec fn model_after_down(&self, now: u64) -> ClickModel {
        if self@.is_bounce(self.window(), now as int) && self@.pending >= usize::MAX {
            self@
        } else {
            self@.after_down(self.window(), now as int)
        }
    }

    /// An engine that has seen no event yet.
    pub fn new(threshold: u64) -> (engine: Debouncer)
        ensures
            engine.window() == threshold,
            engine@ == ClickModel::initial(),
    {
        Debouncer { threshold, state: ClickState::new() }
    }

    /// An engine that goes on from a memory kept earlier.
    pub fn resume(threshold: u64, state: ClickState) -> (engine: Debouncer)
        ensures
            engine.window() == threshold,
            engine@ == state@,
    {
        Debouncer { threshold, state }
    }

    /// The threshold the engine was made with.
    pub fn threshold(&self) -> (threshold: u64)
        ensures
            threshold == self.window(),
    {
        self.threshold
    }

    /// The engine's memory.
    pub fn state(&self) -> (state: ClickState)
        ensures
            state@ == self@,
    {
        self.state
    }

    /// Time of the most recent accepted press.
    pub fn last_down_time(&self) -> (time: Option<u64>)
        ensures
            match time {
                Some(t) => self@.last_down == Some(t as int),
                None => self@.last_down is None,
            },
    {
        self.state.last_down_time
    }

    /// Number of swallowed presses whose release is still to be swallowed.
    pub fn suppressed_pending(&self) -> (count: usize)
        ensures
            count == self@.pending,
    {
        self.state.suppressed_pending
    }

    /// Decides on a button press at time `now`.
    ///
    /// A press less than the threshold after the last accepted press is a
    /// bounce: it is swallowed, counted, and does not become the reference
    /// for later presses. Any other press passes and becomes the reference.
    /// A clock that stepped backwards counts as no time gone by. A bounce
    /// that finds the count at the top of its range is swallowed all the
    /// same and leaves the count there.
    pub fn on_button_down(&mut self, now: u64) -> (decision: Decision)
        ensures
            decision == old(self)@.down_decision(old(self).window(), now as int),
            final(self)@ == old(self).model_after_down(now),
            final(self).window() == old(self).window(),
    {
        let bounce = match self.state.last_down_time {
            Some(previous) => {
                let gone_by: u64 = if now >= previous { now - previous } else { 0 };
                gone_by < self.threshold
            },
            None => false,
        };
        if bounce {
            if self.state.suppressed_pending < usize::MAX {
                self.state.suppressed_pending = self.state.suppressed_pending + 1;
            }
            Decision::Suppress
        } else {
            self.state.last_down_time = Some(now);
            Decision::Pass
        }
    }

    /// Decides on a button release. The time plays no part in the decision.
    ///
    /// A release is swallowed exactly when a swallowed press still waits for
    /// its release; it then takes one off the count.
    pub fn on_button_up(&mut self, now: u64) -> (decision: Decision)
        ensures
            decision == old(self)@.up_decision(),
            final(self)@ == old(self)@.after_up(),
            final(self).window() == old(self).window(),
    {
        let _ = now;
        if self.state.suppressed_pending > 0 {
            self.state.suppressed_pending = self.state.suppressed_pending - 1;
            Decision::Suppress
        } else {
            Decision::Pass
        }
    }
}

} // verus!
