//! An independent 8-bit countdown timer. The value decays toward zero at a
//! fixed real-time rate, decoupled from instruction throughput: `tick` is
//! called once per cycle with the current timestamp and decrements only when
//! a full interval has elapsed since the last decrement.

use vstd::prelude::*;

verus! {

/// A countdown timer. The timestamp unit is milliseconds on whatever clock
/// the caller reads; only differences of timestamps are ever used.
#[derive(Debug, Clone, Copy, PartialEq, Eq, Structural)]
pub struct Timer {
    /// The current countdown value. Zero stays zero until explicitly set.
    pub value: u8,
    /// The length in milliseconds of one decrement interval.
    pub interval_millis: u32,
    /// The timestamp of the last decrement or explicit set.
    pub last_millis: u64,
}

impl Timer {
    /// The milliseconds elapsed between the last decrement and `now_millis`.
    /// A timestamp behind the recorded one counts as no elapsed time.
    pub open spec fn spec_elapsed(self, now_millis: u64) -> int {
        if now_millis >= self.last_millis {
            now_millis - self.last_millis
        } else {
            0
        }
    }

    /// The timer after one `tick` at `now_millis`: the value drops by one
    /// exactly when it is nonzero and more than one interval has elapsed,
    /// and the decrement restarts the interval at `now_millis`.
    pub open spec fn spec_tick(self, now_millis: u64) -> Timer {
        if self.value > 0 && self.spec_elapsed(now_millis) > self.interval_millis {
            Timer {
                value: (self.value - 1) as u8,
                interval_millis: self.interval_millis,
                last_millis: now_millis,
            }
        } else {
            self
        }
    }

    /// A fresh timer at value zero, decrementing once per `1000 / clock_speed_hz`
    /// milliseconds.
    pub fn new(clock_speed_hz: u32, now_millis: u64) -> (r: Timer)
        requires
            clock_speed_hz > 0,
        ensures
            r.value == 0,
            r.interval_millis == 1000u32 / clock_speed_hz,
            r.last_millis == now_millis,
    {
        Timer { value: 0, interval_millis: 1000 / clock_speed_hz, last_millis: now_millis }
    }

    /// Store a new countdown value and restart the interval at `now_millis`.
    pub fn set_value(&mut self, value: u8, now_millis: u64)
        ensures
            final(self).value == value,
            final(self).interval_millis == old(self).interval_millis,
            final(self).last_millis == now_millis,
    {
        self.value = value;
        self.last_millis = now_millis;
    }

    /// The current countdown value, unchanged by reading it.
    pub fn get_value(&mut self) -> (r: u8)
        ensures
            r == old(self).value,
            *final(self) == *old(self),
    {
        self.value
    }

    /// Advance the timer to `now_millis`, decrementing at most once,
    /// exactly as `spec_tick` says.
    pub fn tick(&mut self, now_millis: u64)
        ensures
            *final(self) == old(self).spec_tick(now_millis),
    {
        if self.value == 0 {
            return;
        }
        if now_millis >= self.last_millis {
            let elapsed: u64 = now_millis - self.last_millis;
            if elapsed > self.interval_millis as u64 {
                self.value = self.value - 1;
                self.last_millis = now_millis;
            }
        }
    }
}

} // verus!
