//! The status bar clock.

use vstd::prelude::*;

verus! {

/// The face of the status bar clock.
#[derive(Debug, Clone, Copy, PartialEq, Eq, Structural)]
pub enum ClockFace {
    Hours12,
    Hours24,
}

/// The messages of the status bar clock.
#[derive(Debug, Clone, Copy, PartialEq, Eq, Structural)]
pub enum ClockMessage {
    Tick,
}

/// The status bar clock: its face, whether its separator flashes, whether
/// it shows seconds, and the time it shows (seconds since the Unix epoch).
#[derive(Debug)]
pub struct ClockWidget {
    pub mode: ClockFace,
    pub flash: bool,
    pub show_seconds: bool,
    pub time: i64,
}

impl ClockWidget {
    /// A 24-hour clock without flashing or seconds, showing `now`.
    pub fn new(now: i64) -> (r: Self)
        ensures
            r.mode == ClockFace::Hours24,
            !r.flash,
            !r.show_seconds,
            r.time == now,
    {
        ClockWidget { mode: ClockFace::Hours24, flash: false, show_seconds: false, time: now }
    }
}

} // verus!
