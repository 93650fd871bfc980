//! The decisions of the event loop: which command a key stands for, when the
//! input producer emits a tick, and what one event does to a session.
use crate::pomodoro::Notice;
use crate::pomodoro::Pomodoro;
use crate::pomodoro::PomodoroView;
use vstd::prelude::*;

verus! {

/// A key pressed at the terminal, as far as the session cares.
#[derive(Debug, Clone, Copy, PartialEq, Eq, Structural)]
pub enum Key {
    Char(char),
    Esc,
    Other,
}

/// What the user asks of the session.
#[derive(Debug, Clone, Copy, PartialEq, Eq, Structural)]
pub enum Command {
    StartOrPause,
    Reset,
    Quit,
}

/// One unit of work for the main loop: a key press, or a tick of the clock.
#[derive(Debug, Clone, Copy, PartialEq, Eq, Structural)]
pub enum Event {
    Key(Key),
    Tick,
}

/// The nanoseconds between two ticks.
pub const TICK_RATE_NANOS: u64 = 200_000_000;

/// `s` starts or pauses, `r` resets, `q` and Esc quit; other keys do nothing.
pub open spec fn command_of(key: Key) -> Option<Command> {
    match key {
        Key::Char(c) => if c == 's' {
            Some(Command::StartOrPause)
        } else if c == 'r' {
            Some(Command::Reset)
        } else if c == 'q' {
            Some(Command::Quit)
        } else {
            None
        },
        Key::Esc => Some(Command::Quit),
        Key::Other => None,
    }
}

/// The command that `key` stands for, if any.
pub fn command_for_key(key: Key) -> (r: Option<Command>)
    ensures
        r == command_of(key),
{
    match key {
        Key::Char('s') => Some(Command::StartOrPause),
        Key::Char('r') => Some(Command::Reset),
        Key::Char('q') => Some(Command::Quit),
        Key::Esc => Some(Command::Quit),
        _ => None,
    }
}

/// How long the input producer may wait for a key, `since_last_tick`
/// nanoseconds after the last tick: what is left of the cadence, or zero.
pub fn poll_timeout(tick_rate: u64, since_last_tick: u64) -> (r: u64)
    ensures
        r == if since_last_tick < tick_rate {
            tick_rate - since_last_tick
        } else {
            0
        },
{
    if since_last_tick < tick_rate {
        tick_rate - since_last_tick
    } else {
        0
    }
}

/// Whether a tick is due `since_last_tick` nanoseconds after the last one.
pub fn tick_due(tick_rate: u64, since_last_tick: u64) -> (r: bool)
    ensures
        r == (since_last_tick >= tick_rate),
{
    since_last_tick >= tick_rate
}

/// What the main loop does after one event: whether it stops, and the notice
/// of a phase change, if there was one.
pub struct Reaction {
    pub quit: bool,
    pub notice: Option<Notice>,
}

/// The session after `event` at clock reading `now`.
pub open spec fn after_event(p: PomodoroView, event: Event, now: u64) -> PomodoroView {
    match event {
        Event::Tick => p.checked(now),
        Event::Key(key) => match command_of(key) {
            Some(Command::StartOrPause) => p.started_or_paused(now),
            Some(Command::Reset) => p.reset(),
            _ => p,
        },
    }
}

/// The reaction of the main loop to `event` at clock reading `now`.
pub open spec fn reaction_to(p: PomodoroView, event: Event, now: u64) -> Reaction {
    match event {
        Event::Tick => Reaction { quit: false, notice: p.check_notice(now) },
        Event::Key(key) => Reaction { quit: command_of(key) == Some(Command::Quit), notice: None },
    }
}

impl Pomodoro {
    /// Handles one event at clock reading `now`: a tick runs the expiry check,
    /// a key runs the command it stands for.
    pub fn handle_event_at(&mut self, event: Event, now: u64) -> (r: Reaction)
        requires
            old(self).wf(),
        ensures
            final(self)@ == after_event(old(self)@, event, now),
            r == reaction_to(old(self)@, event, now),
            final(self).wf(),
    {
        match event {
            Event::Tick => {
                let notice = self.check_and_switch_at(now);
                Reaction { quit: false, notice }
            },
            Event::Key(key) => {
                let quit = match command_for_key(key) {
                    Some(Command::StartOrPause) => {
                        self.start_or_pause_at(now);
                        false
                    },
                    Some(Command::Reset) => {
                        self.reset();
                        false
                    },
                    Some(Command::Quit) => true,
                    None => false,
                };
                Reaction { quit, notice: None }
            },
        }
    }

    /// Handles one event, now.
    pub fn handle_event(&mut self, event: Event) -> (r: Reaction)
        requires
            old(self).wf(),
        ensures
            exists|now: u64|
                final(self)@ == after_event(old(self)@, event, now) && r == reaction_to(
                    old(self)@,
                    event,
                    now,
                ),
            final(self).wf(),
    {
        let now = self.clock_reading();
        self.handle_event_at(event, now)
    }
}

} // verus!
