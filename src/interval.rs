use vstd::prelude::*;

use crate::error::TimerError;

verus! {

/// Nanoseconds in one second.
pub const NANOS_PER_SEC: i64 = 1_000_000_000;

/// The tick period, in nanoseconds, of a timer that fires `frequency` times a
/// second (integer division).
pub open spec fn period_nanos(frequency: int) -> int {
    1_000_000_000int / frequency
}

/// A relative duration, split as the operating system's timer calls take it.
#[derive(Clone, Copy, Debug, PartialEq, Eq, Structural)]
pub struct TimerInterval {
    /// Whole seconds.
    pub secs: i64,
    /// Nanoseconds beyond the whole seconds.
    pub nanos: i64,
}

impl TimerInterval {
    /// The whole duration in nanoseconds.
    pub open spec fn total_nanos(self) -> int {
        self.secs * 1_000_000_000 + self.nanos
    }

    /// The seconds part is the quotient, and the nanoseconds part the
    /// remainder, of `total` divided by one second.
    pub open spec fn splits(self, total: int) -> bool {
        &&& self.secs == total / 1_000_000_000
        &&& self.nanos == total % 1_000_000_000
    }

    /// The tick period of a timer of the given frequency.
    pub open spec fn is_period_of(self, frequency: int) -> bool {
        frequency > 0 && self.splits(period_nanos(frequency))
    }
}

/// The tick period for `frequency` ticks a second: one second divided by the
/// frequency, split into seconds and remaining nanoseconds. A frequency that
/// is zero or negative is refused.
pub fn timer_interval(frequency: i32) -> (r: Result<TimerInterval, TimerError>)
    ensures
        frequency <= 0 ==> r == Err::<TimerInterval, TimerError>(TimerError::InvalidFrequency),
        frequency > 0 ==> (r matches Ok(iv) && iv.is_period_of(frequency as int)),
        r matches Ok(iv) ==> iv.total_nanos() == period_nanos(frequency as int),
        r matches Ok(iv) ==> 0 <= iv.nanos < NANOS_PER_SEC,
{
    if frequency <= 0 {
        return Err(TimerError::InvalidFrequency);
    }
    let f: i64 = frequency as i64;
    let period: i64 = NANOS_PER_SEC / f;
    assert(0 <= period <= NANOS_PER_SEC) by (nonlinear_arith)
        requires
            period == 1_000_000_000int / (f as int),
            f >= 1,
    ;
    let iv = TimerInterval { secs: period / NANOS_PER_SEC, nanos: period % NANOS_PER_SEC };
    assert(iv.total_nanos() == period as int);
    Ok(iv)
}

} // verus!
