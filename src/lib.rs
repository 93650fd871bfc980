//! A work/break session timer: clock timers that can be started, paused and
//! reset, a session that switches between a work phase and a break phase when
//! the active timer runs out, and the decisions of the event loop that drives it.
pub mod ascii_images;
pub mod clock;
pub mod face;
pub mod timer;
pub mod pomodoro;
pub mod dispatch;
pub mod display;

pub use face::get_min_sec_from_duration;
pub use pomodoro::Pomodoro;
pub use pomodoro::PomodoroState;
pub use timer::Timer;
