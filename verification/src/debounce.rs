//! Debouncing of the raw sensor stream.
//!
//! A `SignalWindow` holds the most recent readings, newest first, up to a
//! fixed capacity. The derived idle signal is true exactly when every reading
//! currently held is `Low`: a single `High` anywhere in the window keeps the
//! signal "not idle", which biases the system toward not cutting off a load
//! early.

use vstd::prelude::*;

verus! {

/// One instantaneous reading of the binary vibration sensor.
#[derive(Clone, Copy, PartialEq, Eq, Structural, Debug)]
pub enum RawLevel {
    High,
    Low,
}

/// How many recent readings the debouncer retains.
pub const WINDOW_CAPACITY: usize = 3;

/// True exactly when every reading in `w` is `Low`.
pub open spec fn all_low(w: Seq<RawLevel>) -> bool {
    forall|i: int| 0 <= i < w.len() ==> w[i] == RawLevel::Low
}

/// The window after one observation: the new reading goes to the front and
/// at most the two next-most-recent readings are kept behind it, so the
/// result never exceeds the capacity of three.
pub open spec fn push_reading(w: Seq<RawLevel>, r: RawLevel) -> Seq<RawLevel> {
    seq![r] + w.take(if w.len() >= 2 { 2 } else { w.len() as int })
}

/// Fixed-capacity record of the most recent sensor readings, newest first.
///
/// The capacity is enforced structurally: there is one slot per retained
/// reading and a length counter saying how many slots are in use. Slots
/// beyond `len` are padding and never observable through the view.
pub struct SignalWindow {
    newest: RawLevel,
    middle: RawLevel,
    oldest: RawLevel,
    len: usize,
}

impl View for SignalWindow {
    type V = Seq<RawLevel>;

    /// The readings currently held, newest first.
    closed spec fn view(&self) -> Seq<RawLevel> {
        seq![self.newest, self.middle, self.oldest].take(self.len as int)
    }
}

impl SignalWindow {
    #[verifier::type_invariant]
    spec fn capacity_respected(self) -> bool {
        self.len <= WINDOW_CAPACITY
    }

    /// An empty window: no readings observed yet.
    pub fn new() -> (w: SignalWindow)
        ensures
            w@ == Seq::<RawLevel>::empty(),
    {
        let w = SignalWindow {
            newest: RawLevel::Low,
            middle: RawLevel::Low,
            oldest: RawLevel::Low,
            len: 0,
        };
        proof {
            assert(w@ =~= Seq::<RawLevel>::empty());
        }
        w
    }

    /// How many readings the window currently holds.
    pub fn len(&self) -> (n: usize)
        ensures
            n == self@.len(),
    {
        proof {
            use_type_invariant(self);
        }
        self.len
    }

    /// Record one reading and report the debounced idle signal.
    ///
    /// The reading is inserted at the front; if the window was full, the
    /// oldest reading is evicted. The result is true exactly when everything
    /// now held — even fewer than three readings, during startup — is `Low`.
    /// This operation cannot fail.
    pub fn observe(&mut self, reading: RawLevel) -> (idle: bool)
        ensures
            final(self)@ == push_reading(old(self)@, reading),
            idle <==> all_low(final(self)@),
    {
        proof {
            use_type_invariant(&*self);
        }
        let prev_newest = self.newest;
        let prev_middle = self.middle;
        let new_len: usize = if self.len < WINDOW_CAPACITY {
            self.len + 1
        } else {
            WINDOW_CAPACITY
        };
        *self = SignalWindow {
            newest: reading,
            middle: prev_newest,
            oldest: prev_middle,
            len: new_len,
        };
        proof {
            assert(self@ =~= push_reading(old(self)@, reading));
        }
        let idle = (self.len < 1 || self.newest == RawLevel::Low)
            && (self.len < 2 || self.middle == RawLevel::Low)
            && (self.len < 3 || self.oldest == RawLevel::Low);
        proof {
            if idle {
                assert forall|i: int| 0 <= i < self@.len() implies self@[i] == RawLevel::Low by {
                    assert(self@[i] == seq![self.newest, self.middle, self.oldest][i]);
                }
            } else {
                if self.len >= 1 && self.newest != RawLevel::Low {
                    assert(self@[0] != RawLevel::Low);
                } else if self.len >= 2 && self.middle != RawLevel::Low {
                    assert(self@[1] != RawLevel::Low);
                } else {
                    assert(self@[2] != RawLevel::Low);
                }
            }
        }
        idle
    }
}

} // verus!
