//! The session: a work timer and a break timer, one of which is active, and
//! the switch from one phase to the other when the active timer runs out.
use crate::clock::Clock;
use crate::timer::Timer;
use crate::timer::TimerView;
use std::path::PathBuf;
use vstd::prelude::*;

verus! {

#[verifier::external_type_specification]
#[verifier::external_body]
pub struct ExPathBuf(std::path::PathBuf);

/// The phase of a session.
#[derive(Debug, Clone, Copy, PartialEq, Eq, Structural)]
pub enum PomodoroState {
    Work,
    Break,
}

impl PomodoroState {
    /// The phase that follows this one.
    pub open spec fn next(self) -> PomodoroState {
        match self {
            PomodoroState::Work => PomodoroState::Break,
            PomodoroState::Break => PomodoroState::Work,
        }
    }
}

/// The title of every phase-change notice.
pub const NOTICE_TITLE: &'static str = "Pomodoro Timer";

/// The message of the notice that a break begins.
pub const BREAK_MESSAGE: &'static str = "It's time to have a break.";

/// The message of the notice that work begins.
pub const WORK_MESSAGE: &'static str = "It's time to research.";

/// What to tell the user when a phase begins: a notification, and whether a
/// sound goes with it.
pub struct Notice {
    pub title: &'static str,
    pub message: &'static str,
    pub play_sound: bool,
}

/// The message that announces the phase `begun`.
pub open spec fn message_for(begun: PomodoroState) -> &'static str {
    match begun {
        PomodoroState::Work => WORK_MESSAGE,
        PomodoroState::Break => BREAK_MESSAGE,
    }
}

/// The notice given when the phase `begun` starts.
pub open spec fn notice_for(begun: PomodoroState, no_sound: bool) -> Notice {
    Notice { title: NOTICE_TITLE, message: message_for(begun), play_sound: !no_sound }
}

/// What a session holds: its two timers, its phase, and its sound settings.
pub ghost struct PomodoroView {
    pub work: TimerView,
    pub brk: TimerView,
    pub state: PomodoroState,
    pub sound: PathBuf,
    pub no_sound: bool,
}

impl PomodoroView {
    /// The timer of the current phase.
    pub open spec fn active(self) -> TimerView {
        match self.state {
            PomodoroState::Work => self.work,
            PomodoroState::Break => self.brk,
        }
    }

    /// The timer of the other phase.
    pub open spec fn idle(self) -> TimerView {
        match self.state {
            PomodoroState::Work => self.brk,
            PomodoroState::Break => self.work,
        }
    }

    /// Only the active timer has run: the other is stopped with nothing elapsed.
    pub open spec fn wf(self) -> bool {
        self.idle() == self.idle().reset()
    }

    pub open spec fn is_running(self) -> bool {
        self.active().is_running()
    }

    /// The session after the active timer is started or paused at `now`.
    pub open spec fn started_or_paused(self, now: u64) -> PomodoroView {
        match self.state {
            PomodoroState::Work => PomodoroView { work: self.work.toggled(now), ..self },
            PomodoroState::Break => PomodoroView { brk: self.brk.toggled(now), ..self },
        }
    }

    /// Both timers stopped with nothing elapsed, and the work phase current.
    pub open spec fn reset(self) -> PomodoroView {
        PomodoroView {
            work: self.work.reset(),
            brk: self.brk.reset(),
            state: PomodoroState::Work,
            ..self
        }
    }

    /// Whether the active timer has nothing left at `now`.
    pub open spec fn expired(self, now: u64) -> bool {
        self.active().remaining_at(now) == 0
    }

    /// The next phase begun at `now`: the expired timer reset, the other one
    /// started.
    pub open spec fn switched(self, now: u64) -> PomodoroView {
        match self.state {
            PomodoroState::Work => PomodoroView {
                work: self.work.reset(),
                brk: self.brk.toggled(now),
                state: PomodoroState::Break,
                ..self
            },
            PomodoroState::Break => PomodoroView {
                work: self.work.toggled(now),
                brk: self.brk.reset(),
                state: PomodoroState::Work,
                ..self
            },
        }
    }

    /// The session after the expiry check at `now`.
    pub open spec fn checked(self, now: u64) -> PomodoroView {
        if self.expired(now) {
            self.switched(now)
        } else {
            self
        }
    }

    /// The notice of the expiry check at `now`, if the phase changes.
    pub open spec fn check_notice(self, now: u64) -> Option<Notice> {
        if self.expired(now) {
            Some(notice_for(self.state.next(), self.no_sound))
        } else {
            None
        }
    }
}

/// A work/break session.
pub struct Pomodoro {
    work_timer: Timer,
    break_timer: Timer,
    state: PomodoroState,
    sound: PathBuf,
    no_sound: bool,
    clock: Clock,
}

impl View for Pomodoro {
    type V = PomodoroView;

    closed spec fn view(&self) -> PomodoroView {
        PomodoroView {
            work: self.work_timer@,
            brk: self.break_timer@,
            state: self.state,
            sound: self.sound,
            no_sound: self.no_sound,
        }
    }
}

impl Pomodoro {
    pub open spec fn wf(&self) -> bool {
        self@.wf()
    }

    /// A session in the work phase, both timers stopped, of `work_time` and
    /// `break_time` given as minutes and seconds; `sound` is played on each
    /// phase change unless `no_sound`.
    pub fn new(work_time: (u64, u64), break_time: (u64, u64), sound: PathBuf, no_sound: bool) -> (r:
        Pomodoro)
        requires
            work_time.0 * 60 + work_time.1 <= u64::MAX,
            break_time.0 * 60 + break_time.1 <= u64::MAX,
        ensures
            r@ == (PomodoroView {
                work: TimerView::fresh((work_time.0 * 60 + work_time.1) as u64),
                brk: TimerView::fresh((break_time.0 * 60 + break_time.1) as u64),
                state: PomodoroState::Work,
                sound,
                no_sound,
            }),
            r.wf(),
    {
        let clock = Clock::start();
        Pomodoro {
            work_timer: Timer::with_clock(work_time.0, work_time.1, clock),
            break_timer: Timer::with_clock(break_time.0, break_time.1, clock),
            state: PomodoroState::Work,
            sound,
            no_sound,
            clock,
        }
    }

    /// A reading of the session's clock, in nanoseconds since the session began.
    pub fn clock_reading(&self) -> (r: u64) {
        self.clock.now()
    }

    /// The `MM:SS` face of the break timer at clock reading `now`.
    pub fn break_time_at(&self, now: u64) -> (r: String)
        ensures
            r@ == self@.brk.face_at(now),
    {
        self.break_timer.format_at(now)
    }

    /// The `MM:SS` face of the work timer at clock reading `now`.
    pub fn work_time_at(&self, now: u64) -> (r: String)
        ensures
            r@ == self@.work.face_at(now),
    {
        self.work_timer.format_at(now)
    }

    /// The `MM:SS` face of the break timer, now.
    pub fn break_time(&self) -> (r: String)
        ensures
            exists|now: u64| r@ == self@.brk.face_at(now),
            !self@.brk.is_running() ==> r@ == self@.brk.face_at(0),
    {
        self.break_timer.format()
    }

    /// The `MM:SS` face of the work timer, now.
    pub fn work_time(&self) -> (r: String)
        ensures
            exists|now: u64| r@ == self@.work.face_at(now),
            !self@.work.is_running() ==> r@ == self@.work.face_at(0),
    {
        self.work_timer.format()
    }

    pub fn state(&self) -> (r: &PomodoroState)
        ensures
            *r == self@.state,
    {
        &self.state
    }

    /// The sound played on a phase change.
    pub fn sound(&self) -> (r: &PathBuf)
        ensures
            *r == self@.sound,
    {
        &self.sound
    }

    /// Whether the timer of the current phase runs.
    pub fn is_running(&self) -> (r: bool)
        ensures
            r == self@.is_running(),
    {
        match self.state {
            PomodoroState::Work => self.work_timer.is_running(),
            PomodoroState::Break => self.break_timer.is_running(),
        }
    }

    /// Starts or pauses the timer of the current phase at clock reading `now`.
    pub fn start_or_pause_at(&mut self, now: u64)
        requires
            old(self).wf(),
        ensures
            final(self)@ == old(self)@.started_or_paused(now),
            final(self).wf(),
    {
        match self.state {
            PomodoroState::Work => {
                self.work_timer.start_or_pause_at(now);
            },
            PomodoroState::Break => {
                self.break_timer.start_or_pause_at(now);
            },
        }
    }

    /// Starts or pauses the timer of the current phase, now.
    pub fn start_or_pause(&mut self)
        requires
            old(self).wf(),
        ensures
            exists|now: u64| final(self)@ == old(self)@.started_or_paused(now),
            final(self).wf(),
    {
        let now = self.clock_reading();
        self.start_or_pause_at(now);
    }

    /// Stops both timers, discards their time, and makes work the current phase.
    pub fn reset(&mut self)
        ensures
            final(self)@ == old(self)@.reset(),
            final(self).wf(),
    {
        self.work_timer.reset();
        self.break_timer.reset();
        self.state = PomodoroState::Work;
    }

    /// At clock reading `now`, if the timer of the current phase has nothing
    /// left: resets it, starts the other timer, makes the other phase current,
    /// and returns the notice of the change. Otherwise changes nothing.
    pub fn check_and_switch_at(&mut self, now: u64) -> (r: Option<Notice>)
        requires
            old(self).wf(),
        ensures
            final(self)@ == old(self)@.checked(now),
            r == old(self)@.check_notice(now),
            final(self).wf(),
    {
        let remaining = match self.state {
            PomodoroState::Work => self.work_timer.remaining_at(now),
            PomodoroState::Break => self.break_timer.remaining_at(now),
        };
        if remaining != 0 {
            return None;
        }
        let message = match self.state {
            PomodoroState::Work => {
                self.work_timer.reset();
                self.break_timer.start_or_pause_at(now);
                self.state = PomodoroState::Break;
                BREAK_MESSAGE
            },
            PomodoroState::Break => {
                self.break_timer.reset();
                self.work_timer.start_or_pause_at(now);
                self.state = PomodoroState::Work;
                WORK_MESSAGE
            },
        };
        Some(Notice { title: NOTICE_TITLE, message, play_sound: !self.no_sound })
    }

    /// The expiry check, now.
    pub fn check_and_switch(&mut self) -> (r: Option<Notice>)
        requires
            old(self).wf(),
        ensures
            exists|now: u64|
                final(self)@ == old(self)@.checked(now) && r == old(self)@.check_notice(now),
            final(self).wf(),
    {
        let now = self.clock_reading();
        self.check_and_switch_at(now)
    }
}

/// Resetting a session twice leaves it as resetting once does.
pub proof fn lemma_session_reset_idempotent(p: PomodoroView)
    ensures
        p.reset().reset() == p.reset(),
{
}

/// Once the work timer has nothing left, the check makes break the current
/// phase, resets the work timer and starts the break timer.
pub proof fn lemma_switch_on_expiry(p: PomodoroView, now: u64)
    requires
        p.wf(),
        p.state == PomodoroState::Work,
        p.work.remaining_at(now) == 0,
    ensures
        p.checked(now).state == PomodoroState::Break,
        p.checked(now).work == p.work.reset(),
        p.checked(now).brk.is_running(),
        p.checked(now).brk.elapsed == 0,
{
}

/// While the active timer has time left, the check changes nothing.
pub proof fn lemma_no_switch_before_expiry(p: PomodoroView, now: u64)
    requires
        p.active().remaining_at(now) > 0,
    ensures
        p.checked(now) == p,
        p.check_notice(now) is None,
{
}

/// A reset, from any phase, makes work current and gives both timers their
/// whole durations back.
pub proof fn lemma_reset_restores_durations(p: PomodoroView, now: u64)
    ensures
        p.reset().state == PomodoroState::Work,
        p.reset().work.remaining_at(now) == p.work.duration_nanos(),
        p.reset().brk.remaining_at(now) == p.brk.duration_nanos(),
        !p.reset().is_running(),
        p.reset().wf(),
{
}

} // verus!
