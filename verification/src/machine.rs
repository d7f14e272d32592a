//! The activity state machine.
//!
//! Consumes one raw reading together with the debounced idle signal and
//! tracks whether the laundry machine is believed to be running. A finished
//! event is emitted exactly at an active-to-idle transition, so at most once
//! per load cycle. Starting is deliberately eager (the first `High` edge
//! while the window is not all-low) while finishing is conservative (a `Low`
//! edge only counts once the whole window is unanimously low).

use vstd::prelude::*;

use crate::debounce::RawLevel;

verus! {

/// Whether the laundry machine is currently believed to be running.
#[derive(Clone, Copy, PartialEq, Eq, Structural, Debug)]
pub enum ActivityState {
    Active,
    Idle,
}

/// A zero-payload signal meaning "a load has just completed".
#[derive(Clone, Copy, PartialEq, Eq, Structural, Debug)]
pub struct FinishedEvent;

/// The transition rule: a `High` edge while idle and not debounced-idle
/// starts a load; a `Low` edge while active and debounced-idle finishes it;
/// every other combination leaves the state unchanged.
pub open spec fn next_state(state: ActivityState, reading: RawLevel, idle_signal: bool) -> ActivityState {
    if reading == RawLevel::High && state == ActivityState::Idle && !idle_signal {
        ActivityState::Active
    } else if reading == RawLevel::Low && state == ActivityState::Active && idle_signal {
        ActivityState::Idle
    } else {
        state
    }
}

/// True exactly when a step emits a finished event: a `Low` edge taken while
/// active with the debounced signal reporting idle.
pub open spec fn emits_finished(state: ActivityState, reading: RawLevel, idle_signal: bool) -> bool {
    reading == RawLevel::Low && state == ActivityState::Active && idle_signal
}

/// Owns the active/idle classification for the process lifetime.
pub struct ActivityMachine {
    state: ActivityState,
}

impl View for ActivityMachine {
    type V = ActivityState;

    /// The machine's last-known operating mode.
    closed spec fn view(&self) -> ActivityState {
        self.state
    }
}

impl ActivityMachine {
    /// A fresh machine starts idle.
    pub fn new() -> (m: ActivityMachine)
        ensures
            m@ == ActivityState::Idle,
    {
        ActivityMachine { state: ActivityState::Idle }
    }

    /// The current state.
    pub fn state(&self) -> (s: ActivityState)
        ensures
            s == self@,
    {
        self.state
    }

    /// Apply one reading plus the idle signal derived from it.
    ///
    /// The state moves by [`next_state`], and a finished event comes back
    /// exactly when [`emits_finished`] holds of the state before the call —
    /// so at most one event per call, and never from the idle state. This
    /// operation cannot fail.
    pub fn advance(&mut self, reading: RawLevel, idle_signal: bool) -> (event: Option<FinishedEvent>)
        ensures
            final(self)@ == next_state(old(self)@, reading, idle_signal),
            event == (if emits_finished(old(self)@, reading, idle_signal) {
                Option::Some(FinishedEvent)
            } else {
                Option::<FinishedEvent>::None
            }),
    {
        if reading == RawLevel::High {
            if self.state == ActivityState::Idle && !idle_signal {
                self.state = ActivityState::Active;
            }
            None
        } else {
            if self.state == ActivityState::Active && idle_signal {
                self.state = ActivityState::Idle;
                Some(FinishedEvent)
            } else {
                None
            }
        }
    }
}

} // verus!
