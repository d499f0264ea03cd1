//! Key repeat timings the Wayland input methods drive themselves once they
//! have grabbed the keyboard.
use vstd::prelude::*;

verus! {

/// A span of time with microsecond resolution.
#[derive(Clone, Copy, Debug, PartialEq, Eq, Structural)]
pub struct Timing {
    micros: u128,
}

impl Timing {
    /// The span in microseconds.
    pub closed spec fn spec_micros(self) -> int {
        self.micros as int
    }

    pub fn from_millis(millis: u64) -> (t: Self)
        ensures
            t.spec_micros() == millis * 1000,
    {
        Timing { micros: millis as u128 * 1000 }
    }

    pub fn from_micros(micros: u64) -> (t: Self)
        ensures
            t.spec_micros() == micros,
    {
        Timing { micros: micros as u128 }
    }

    pub fn as_micros(&self) -> (micros: u128)
        ensures
            micros == self.spec_micros(),
    {
        self.micros
    }
}

/// The rate KWin's version-1 keyboard never reports: the xkb/Plasma default.
pub const FALLBACK_REPEAT_RATE: i32 = 25;
/// The delay that goes with it, in milliseconds.
pub const FALLBACK_REPEAT_DELAY: i32 = 600;

/// Turn a `repeat_info` event into (initial delay, interval between repeats).
///
/// `rate` is in keys per second; zero disables repeating, and so do the
/// negative values the protocol forbids.
pub fn repeat_timings(rate: i32, delay: i32) -> (timings: Option<(Timing, Timing)>)
    ensures
        match timings {
            None => rate <= 0 || delay < 0,
            Some((first, interval)) => rate > 0 && delay >= 0 && first.spec_micros() == delay * 1000
                && interval.spec_micros() == 1_000_000int / (rate as int),
        },
{
    if rate <= 0 || delay < 0 {
        return None;
    }
    let first = Timing::from_millis(delay as u64);
    let interval = Timing::from_micros(1_000_000u64 / rate as u64);
    Some((first, interval))
}

} // verus!
