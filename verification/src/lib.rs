//! A bang-bang (two-state on/off) controller whose state transitions can be
//! constrained by an optional minimum dwell time per state.
//!
//! The controller owns the current logical state, the per-state minimum dwell
//! configuration, optional per-target-state transition handlers, and a clock
//! source supplied by the caller as a wrapping millisecond counter. A
//! transition request is granted only when the time spent in the current
//! state has reached that state's configured minimum, and only if the target
//! state's handler (when one is registered) does not report failure.

pub mod state;
pub mod timing;
pub mod machine;
pub mod controller;
