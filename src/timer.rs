//! A timer for one interval: it accumulates the time it has run, across
//! pauses, and tells how much of its duration is left.
use crate::clock::Clock;
use crate::face::clock_face;
use crate::face::format_min_sec;
use crate::face::lemma_face_round_trip;
use crate::face::read_face;
use vstd::prelude::*;

verus! {

/// Nanoseconds in a second.
pub const NANOS_PER_SEC: u64 = 1_000_000_000;

/// Clamps a nanosecond count to what a `u64` holds.
pub open spec fn saturated(n: int) -> u64 {
    if n > u64::MAX {
        u64::MAX
    } else {
        n as u64
    }
}

/// What a timer holds: its duration in seconds, the nanoseconds it ran
/// before its last pause, and the clock reading at which it was last started
/// when it is running.
pub ghost struct TimerView {
    pub duration: u64,
    pub elapsed: u64,
    pub running_since: Option<u64>,
}

impl TimerView {
    /// A stopped timer of `duration` seconds that has not run.
    pub open spec fn fresh(duration: u64) -> TimerView {
        TimerView { duration, elapsed: 0, running_since: None }
    }

    pub open spec fn is_running(self) -> bool {
        self.running_since is Some
    }

    pub open spec fn duration_nanos(self) -> int {
        self.duration * NANOS_PER_SEC
    }

    /// Nanoseconds of the running segment at clock reading `now`; a reading
    /// before the start counts as none.
    pub open spec fn segment(self, now: u64) -> int {
        match self.running_since {
            Some(start) => if now >= start {
                now - start
            } else {
                0
            },
            None => 0,
        }
    }

    /// Nanoseconds run in all, at clock reading `now`.
    pub open spec fn elapsed_at(self, now: u64) -> int {
        self.elapsed + self.segment(now)
    }

    /// Nanoseconds left at clock reading `now`, never below zero.
    pub open spec fn remaining_at(self, now: u64) -> int {
        if self.elapsed_at(now) >= self.duration_nanos() {
            0
        } else {
            self.duration_nanos() - self.elapsed_at(now)
        }
    }

    /// The timer after a start or a pause at clock reading `now`: a pause
    /// folds the running segment into the elapsed time.
    pub open spec fn toggled(self, now: u64) -> TimerView {
        if self.is_running() {
            TimerView { elapsed: saturated(self.elapsed_at(now)), running_since: None, ..self }
        } else {
            TimerView { running_since: Some(now), ..self }
        }
    }

    /// The timer stopped with nothing elapsed.
    pub open spec fn reset(self) -> TimerView {
        TimerView::fresh(self.duration)
    }

    /// The `MM:SS` face at clock reading `now`: whole seconds left.
    pub open spec fn face_at(self, now: u64) -> Seq<char> {
        clock_face((self.remaining_at(now) / NANOS_PER_SEC as int) as nat)
    }
}

/// A timer of a fixed duration that can be started, paused and reset.
pub struct Timer {
    duration: u64,
    start_time: Option<u64>,
    elapsed: u64,
    clock: Clock,
}

impl View for Timer {
    type V = TimerView;

    closed spec fn view(&self) -> TimerView {
        TimerView { duration: self.duration, elapsed: self.elapsed, running_since: self.start_time }
    }
}

impl Timer {
    /// A stopped timer of `minutes` minutes and `seconds` seconds, with its
    /// own clock.
    pub fn new(minutes: u64, seconds: u64) -> (r: Timer)
        requires
            minutes * 60 + seconds <= u64::MAX,
        ensures
            r@ == TimerView::fresh((minutes * 60 + seconds) as u64),
            forall|now: u64| #[trigger] r@.remaining_at(now) == r@.duration_nanos(),
            !r@.is_running(),
    {
        Timer::with_clock(minutes, seconds, Clock::start())
    }

    /// A stopped timer of `minutes` minutes and `seconds` seconds that reads
    /// `clock`.
    pub fn with_clock(minutes: u64, seconds: u64, clock: Clock) -> (r: Timer)
        requires
            minutes * 60 + seconds <= u64::MAX,
        ensures
            r@ == TimerView::fresh((minutes * 60 + seconds) as u64),
            forall|now: u64| #[trigger] r@.remaining_at(now) == r@.duration_nanos(),
    {
        Timer { duration: minutes * 60 + seconds, start_time: None, elapsed: 0, clock }
    }

    /// The duration in seconds.
    pub fn duration(&self) -> (r: u64)
        ensures
            r == self@.duration,
    {
        self.duration
    }

    pub fn is_running(&self) -> (r: bool)
        ensures
            r == self@.is_running(),
    {
        self.start_time.is_some()
    }

    /// Nanoseconds run in all, at clock reading `now`.
    pub fn elapsed_at(&self, now: u64) -> (r: u128)
        ensures
            r == self@.elapsed_at(now),
    {
        match self.start_time {
            Some(start) => {
                let segment: u64 = if now >= start {
                    now - start
                } else {
                    0
                };
                self.elapsed as u128 + segment as u128
            },
            None => self.elapsed as u128,
        }
    }

    /// Nanoseconds left at clock reading `now`: the duration less the elapsed
    /// time, or zero once that is used up.
    pub fn remaining_at(&self, now: u64) -> (r: u128)
        ensures
            r == self@.remaining_at(now),
    {
        let elapsed = self.elapsed_at(now);
        let duration = self.duration as u128 * NANOS_PER_SEC as u128;
        if elapsed >= duration {
            0
        } else {
            duration - elapsed
        }
    }

    /// Starts a stopped timer at clock reading `now`, or pauses a running one
    /// there, keeping the time it ran.
    pub fn start_or_pause_at(&mut self, now: u64)
        ensures
            final(self)@ == old(self)@.toggled(now),
    {
        if self.start_time.is_some() {
            let elapsed = self.elapsed_at(now);
            self.elapsed = if elapsed > u64::MAX as u128 {
                u64::MAX
            } else {
                elapsed as u64
            };
            self.start_time = None;
        } else {
            self.start_time = Some(now);
        }
    }

    /// Stops the timer and discards the time it ran.
    pub fn reset(&mut self)
        ensures
            final(self)@ == old(self)@.reset(),
    {
        self.start_time = None;
        self.elapsed = 0;
    }

    /// The `MM:SS` face of the whole seconds left at clock reading `now`.
    pub fn format_at(&self, now: u64) -> (r: String)
        ensures
            r@ == self@.face_at(now),
    {
        let remaining = self.remaining_at(now);
        let seconds = remaining / NANOS_PER_SEC as u128;
        assert(seconds <= self.duration) by (nonlinear_arith)
            requires
                remaining <= self.duration * NANOS_PER_SEC,
                seconds == remaining / NANOS_PER_SEC as u128,
        ;
        format_min_sec(seconds as u64)
    }

    /// Starts or pauses the timer now.
    pub fn start_or_pause(&mut self)
        ensures
            exists|now: u64| final(self)@ == old(self)@.toggled(now),
    {
        let now = self.clock.now();
        self.start_or_pause_at(now);
    }

    /// Nanoseconds run in all, now.
    pub fn elapsed(&self) -> (r: u128)
        ensures
            exists|now: u64| r == self@.elapsed_at(now),
            !self@.is_running() ==> r == self@.elapsed,
    {
        let now = self.clock.now();
        self.elapsed_at(now)
    }

    /// Nanoseconds left, now.
    pub fn remaining(&self) -> (r: u128)
        ensures
            exists|now: u64| r == self@.remaining_at(now),
            !self@.is_running() ==> r == self@.remaining_at(0),
    {
        let now = self.clock.now();
        self.remaining_at(now)
    }

    /// The `MM:SS` face of the whole seconds left, now.
    pub fn format(&self) -> (r: String)
        ensures
            exists|now: u64| r@ == self@.face_at(now),
            !self@.is_running() ==> r@ == self@.face_at(0),
    {
        let now = self.clock.now();
        self.format_at(now)
    }
}

/// A freshly made timer has its whole duration left and is not running.
pub proof fn lemma_fresh_timer(duration: u64, now: u64)
    ensures
        TimerView::fresh(duration).remaining_at(now) == duration * NANOS_PER_SEC,
        !TimerView::fresh(duration).is_running(),
{
}

/// What is left and what has elapsed add up to the duration while the
/// duration is not used up; after that nothing is left.
pub proof fn lemma_remaining_plus_elapsed(t: TimerView, now: u64)
    ensures
        t.elapsed_at(now) <= t.duration_nanos() ==> t.remaining_at(now) + t.elapsed_at(now)
            == t.duration_nanos(),
        t.elapsed_at(now) > t.duration_nanos() ==> t.remaining_at(now) == 0,
        t.remaining_at(now) >= 0,
{
}

/// Resetting twice leaves the timer as resetting once does.
pub proof fn lemma_reset_idempotent(t: TimerView)
    ensures
        t.reset().reset() == t.reset(),
{
}

/// Run from `t0` to `t1`, paused, run again from `t2` to `t3` and paused: the
/// timer has gained the two running spans, whatever the pause between them.
pub proof fn lemma_pause_resume_conservation(t: TimerView, t0: u64, t1: u64, t2: u64, t3: u64)
    requires
        !t.is_running(),
        t0 <= t1 <= t2 <= t3,
        t.elapsed + (t3 - t0) <= u64::MAX,
    ensures
        ({
            let after = t.toggled(t0).toggled(t1).toggled(t2).toggled(t3);
            &&& !after.is_running()
            &&& after.elapsed == t.elapsed + (t1 - t0) + (t3 - t2)
        }),
{
}

/// The face of a timer that has not run reads back as its minutes and seconds.
pub proof fn lemma_fresh_face_round_trip(minutes: u64, seconds: u64, now: u64)
    requires
        seconds < 60,
        minutes * 60 + seconds <= u64::MAX,
    ensures
        read_face(TimerView::fresh((minutes * 60 + seconds) as u64).face_at(now)) == (
            minutes as nat,
            seconds as nat,
        ),
{
    let t = TimerView::fresh((minutes * 60 + seconds) as u64);
    let total = minutes * 60 + seconds;
    assert(t.remaining_at(now) == total * NANOS_PER_SEC);
    assert((total * NANOS_PER_SEC as int) / NANOS_PER_SEC as int == total) by (nonlinear_arith);
    lemma_face_round_trip(minutes as nat, seconds as nat);
}

} // verus!
