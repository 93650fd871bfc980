//! A monotonic clock that hands out readings as plain nanosecond counts.
//!
//! The timers never hold instants of the operating system: they hold readings
//! of a `Clock`, which are nanoseconds since the clock was made. Everything
//! that depends on time is then a function of such a reading.
use std::time::Duration;
use std::time::Instant;
use vstd::prelude::*;

verus! {

#[verifier::external_type_specification]
#[verifier::external_body]
pub struct ExInstant(std::time::Instant);

/// Relies on `Instant::now`: a reading of the monotonic clock, of which
/// nothing can be promised here.
pub assume_specification[ std::time::Instant::now ]() -> std::time::Instant;

/// Relies on `Instant::elapsed`: the time gone by since the instant, of which
/// nothing can be promised here, as it depends on when it is called.
pub assume_specification[ std::time::Instant::elapsed ](
    self_: &std::time::Instant,
) -> std::time::Duration;

/// Relies on `Duration::as_nanos`: the whole nanoseconds of a duration.
pub assume_specification[ std::time::Duration::as_nanos ](self_: &std::time::Duration) -> u128;

/// The largest reading a clock hands out; later readings stay there.
pub const MAX_READING: u64 = 0xffff_ffff_ffff_ffff;

/// A monotonic clock whose readings count nanoseconds from its creation.
#[derive(Clone, Copy)]
pub struct Clock {
    origin: Instant,
}

/// Clamps a nanosecond count to the range of a clock reading.
pub open spec fn reading_of(nanos: int) -> u64 {
    if nanos > MAX_READING {
        MAX_READING
    } else {
        nanos as u64
    }
}

/// Turns a nanosecond count into a clock reading, saturating at the largest one.
pub fn clamp_reading(nanos: u128) -> (r: u64)
    ensures
        r == reading_of(nanos as int),
{
    if nanos > MAX_READING as u128 {
        MAX_READING
    } else {
        nanos as u64
    }
}

impl Clock {
    /// A clock whose zero is the present moment.
    pub fn start() -> (r: Clock) {
        Clock { origin: Instant::now() }
    }

    /// Nanoseconds since the clock was started.
    pub fn now(&self) -> (r: u64) {
        let span: Duration = self.origin.elapsed();
        clamp_reading(span.as_nanos())
    }
}

} // verus!
