//! What holds of the monitor over whole sequences of readings.
//!
//! The functions here replay a sequence of raw readings through the same
//! step rule the monitor executes, and the proof functions state the
//! system-level guarantees: the window is bounded, high readings never
//! finish a load, no finished event is ever emitted from the idle state,
//! and once idle, low readings can never produce a second event.

use vstd::prelude::*;

use crate::debounce::{all_low, push_reading, RawLevel, WINDOW_CAPACITY};
use crate::machine::{emits_finished, next_state, ActivityState};

verus! {

/// The window after feeding every reading of `readings`, in order, into a
/// window that currently holds `w`.
pub open spec fn run_window(w: Seq<RawLevel>, readings: Seq<RawLevel>) -> Seq<RawLevel>
    decreases readings.len(),
{
    if readings.len() == 0 {
        w
    } else {
        run_window(push_reading(w, readings[0]), readings.drop_first())
    }
}

/// The activity state after feeding every reading of `readings`, in order,
/// starting from window `w` and state `s`, with the idle signal recomputed
/// from the window at each step as the monitor does.
pub open spec fn run_state(w: Seq<RawLevel>, s: ActivityState, readings: Seq<RawLevel>) -> ActivityState
    decreases readings.len(),
{
    if readings.len() == 0 {
        s
    } else {
        let w2 = push_reading(w, readings[0]);
        run_state(w2, next_state(s, readings[0], all_low(w2)), readings.drop_first())
    }
}

/// How many finished events are emitted while feeding every reading of
/// `readings`, in order, starting from window `w` and state `s`.
pub open spec fn run_finish_count(w: Seq<RawLevel>, s: ActivityState, readings: Seq<RawLevel>) -> nat
    decreases readings.len(),
{
    if readings.len() == 0 {
        0
    } else {
        let w2 = push_reading(w, readings[0]);
        let emitted: nat = if emits_finished(s, readings[0], all_low(w2)) { 1 } else { 0 };
        emitted + run_finish_count(w2, next_state(s, readings[0], all_low(w2)), readings.drop_first())
    }
}

/// The most recent up-to-three readings of `rs`, newest first.
pub open spec fn recent_readings(rs: Seq<RawLevel>) -> Seq<RawLevel> {
    let k: int = if rs.len() >= WINDOW_CAPACITY {
        WINDOW_CAPACITY as int
    } else {
        rs.len() as int
    };
    rs.subrange(rs.len() - k, rs.len() as int).reverse()
}

/// Feeding readings one more reading at the end is one more push.
proof fn lemma_run_window_snoc(w: Seq<RawLevel>, rs: Seq<RawLevel>, r: RawLevel)
    ensures
        run_window(w, rs.push(r)) == push_reading(run_window(w, rs), r),
    decreases rs.len(),
{
    let rsr = rs.push(r);
    if rs.len() == 0 {
        assert(rsr[0] == r);
        assert(rsr.drop_first() =~= Seq::<RawLevel>::empty());
        assert(run_window(w, rsr) == run_window(push_reading(w, r), Seq::<RawLevel>::empty()));
        assert(run_window(push_reading(w, r), Seq::<RawLevel>::empty()) == push_reading(w, r));
    } else {
        assert(rsr[0] == rs[0]);
        assert(rsr.drop_first() =~= rs.drop_first().push(r));
        lemma_run_window_snoc(push_reading(w, rs[0]), rs.drop_first(), r);
        assert(run_window(w, rsr) == run_window(push_reading(w, rs[0]), rsr.drop_first()));
        assert(run_window(w, rs) == run_window(push_reading(w, rs[0]), rs.drop_first()));
    }
}

/// Law: starting from an empty window, after any sequence of readings the
/// window holds exactly the most recent up-to-three of them, newest first —
/// so the idle signal reported by the debouncer is true exactly when those
/// readings are all low.
pub proof fn lemma_window_holds_recent_readings(rs: Seq<RawLevel>)
    ensures
        run_window(Seq::empty(), rs) == recent_readings(rs),
    decreases rs.len(),
{
    if rs.len() == 0 {
        assert(recent_readings(rs) =~= Seq::<RawLevel>::empty());
    } else {
        let prefix = rs.drop_last();
        lemma_window_holds_recent_readings(prefix);
        assert(rs =~= prefix.push(rs.last()));
        lemma_run_window_snoc(Seq::empty(), prefix, rs.last());
        assert(push_reading(recent_readings(prefix), rs.last()) =~= recent_readings(rs));
    }
}

/// Law: however many readings are fed, the window never holds more than its
/// capacity of three readings.
pub proof fn lemma_window_len_bounded(w: Seq<RawLevel>, readings: Seq<RawLevel>)
    requires
        w.len() <= WINDOW_CAPACITY,
    ensures
        run_window(w, readings).len() <= WINDOW_CAPACITY,
    decreases readings.len(),
{
    if readings.len() > 0 {
        lemma_window_len_bounded(push_reading(w, readings[0]), readings.drop_first());
    }
}

/// Law: no finished event is ever emitted from the idle state, whatever the
/// reading and whatever the idle signal.
pub proof fn lemma_idle_never_emits(reading: RawLevel, idle_signal: bool)
    ensures
        !emits_finished(ActivityState::Idle, reading, idle_signal),
{
}

/// Law: while a load is running, high readings never finish it — the machine
/// stays active and emits nothing, however many high readings arrive.
pub proof fn lemma_high_never_finishes(w: Seq<RawLevel>, readings: Seq<RawLevel>)
    requires
        forall|i: int| 0 <= i < readings.len() ==> readings[i] == RawLevel::High,
    ensures
        run_state(w, ActivityState::Active, readings) == ActivityState::Active,
        run_finish_count(w, ActivityState::Active, readings) == 0,
    decreases readings.len(),
{
    if readings.len() > 0 {
        let w2 = push_reading(w, readings[0]);
        assert(next_state(ActivityState::Active, readings[0], all_low(w2)) == ActivityState::Active);
        assert(forall|i: int| 0 <= i < readings.drop_first().len()
            ==> readings.drop_first()[i] == readings[i + 1]);
        lemma_high_never_finishes(w2, readings.drop_first());
    }
}

/// Law: once the machine is idle, low readings keep it idle and emit no
/// finished event — replaying the tail of a finished sequence can never
/// produce a second event without an intervening active period.
pub proof fn lemma_low_while_idle_stays_silent(w: Seq<RawLevel>, readings: Seq<RawLevel>)
    requires
        forall|i: int| 0 <= i < readings.len() ==> readings[i] == RawLevel::Low,
    ensures
        run_state(w, ActivityState::Idle, readings) == ActivityState::Idle,
        run_finish_count(w, ActivityState::Idle, readings) == 0,
    decreases readings.len(),
{
    if readings.len() > 0 {
        let w2 = push_reading(w, readings[0]);
        assert(next_state(ActivityState::Idle, readings[0], all_low(w2)) == ActivityState::Idle);
        assert(forall|i: int| 0 <= i < readings.drop_first().len()
            ==> readings.drop_first()[i] == readings[i + 1]);
        lemma_low_while_idle_stays_silent(w2, readings.drop_first());
    }
}

} // verus!
