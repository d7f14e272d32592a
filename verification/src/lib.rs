//! Core logic for a laundry-machine vibration monitor.
//!
//! A binary vibration sensor delivers a stream of `High`/`Low` edge readings.
//! The [`debounce`] module smooths that stream into a stable idle signal by
//! requiring unanimity over a short window of recent readings; the [`machine`]
//! module owns the active/idle classification and emits a finished event
//! exactly once per active-to-idle transition; the [`monitor`] module drives
//! the two in lock-step, one reading at a time. The [`behavior`] module states
//! and proves what holds of whole reading sequences.

pub mod behavior;
pub mod debounce;
pub mod machine;
pub mod monitor;
