//! The monitor drives the debouncer and the state machine in lock-step.
//!
//! Each raw reading is first observed by the window, then fed to the state
//! machine together with the idle signal computed from that very update —
//! one `observe` per `advance`, in that order, as the design requires.

use vstd::prelude::*;

use crate::debounce::{all_low, push_reading, RawLevel, SignalWindow};
use crate::machine::{emits_finished, next_state, ActivityMachine, ActivityState, FinishedEvent};

verus! {

/// One lock-step update of the whole monitor: the window after the reading,
/// the activity state after the reading, and whether a finished event is
/// emitted. The idle signal fed to the transition rule is computed from the
/// window as updated by this same reading.
pub open spec fn step(w: Seq<RawLevel>, s: ActivityState, r: RawLevel) -> (Seq<RawLevel>, ActivityState, bool) {
    let w2 = push_reading(w, r);
    let idle = all_low(w2);
    (w2, next_state(s, r, idle), emits_finished(s, r, idle))
}

/// The whole core: a signal window and an activity machine, advanced
/// together one reading at a time.
pub struct LaundryMonitor {
    window: SignalWindow,
    machine: ActivityMachine,
}

impl View for LaundryMonitor {
    type V = (Seq<RawLevel>, ActivityState);

    /// The retained readings (newest first) and the current activity state.
    closed spec fn view(&self) -> (Seq<RawLevel>, ActivityState) {
        (self.window@, self.machine@)
    }
}

impl LaundryMonitor {
    /// A fresh monitor: empty window, idle machine.
    pub fn new() -> (m: LaundryMonitor)
        ensures
            m@.0 == Seq::<RawLevel>::empty(),
            m@.1 == ActivityState::Idle,
    {
        LaundryMonitor { window: SignalWindow::new(), machine: ActivityMachine::new() }
    }

    /// The current activity state.
    pub fn state(&self) -> (s: ActivityState)
        ensures
            s == self@.1,
    {
        self.machine.state()
    }

    /// Feed one raw reading through the debouncer and the state machine.
    ///
    /// The window and the state move by [`step`], and a finished event comes
    /// back exactly when that step emits one. This operation cannot fail.
    pub fn process_reading(&mut self, reading: RawLevel) -> (event: Option<FinishedEvent>)
        ensures
            final(self)@.0 == step(old(self)@.0, old(self)@.1, reading).0,
            final(self)@.1 == step(old(self)@.0, old(self)@.1, reading).1,
            event == (if step(old(self)@.0, old(self)@.1, reading).2 {
                Option::Some(FinishedEvent)
            } else {
                Option::<FinishedEvent>::None
            }),
    {
        let idle = self.window.observe(reading);
        self.machine.advance(reading, idle)
    }
}

/// The fixed notification text sent for every finished load.
pub fn finished_message() -> (m: &'static str)
    ensures
        m@ == "Your laundry is ready for you to pick up!"@,
{
    "Your laundry is ready for you to pick up!"
}

} // verus!
