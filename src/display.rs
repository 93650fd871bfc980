//! What the screen shows of a session, decided apart from the drawing: the
//! sizes of the two timer faces, the label of the start/pause key, the share
//! of the screen that the picture takes, and which picture it is.
use crate::ascii_images::computer;
use crate::ascii_images::computer_art;
use crate::ascii_images::sleeping_cat;
use crate::ascii_images::sleeping_cat_art;
use crate::pomodoro::PomodoroState;
use vstd::prelude::*;

verus! {

/// The rows of the face of the current phase.
pub const ACTIVE_FACE_ROWS: u16 = 8;

/// The rows of the face of the other phase.
pub const IDLE_FACE_ROWS: u16 = 4;

/// How the two timer faces are drawn: their heights in rows, and whether
/// each is drawn in full-size pixels (else in quarter-size ones).
#[derive(Debug, Clone, Copy, PartialEq, Eq, Structural)]
pub struct PhaseDisplay {
    pub work_rows: u16,
    pub work_full: bool,
    pub break_rows: u16,
    pub break_full: bool,
}

/// The face of the current phase is drawn large, the other small.
pub open spec fn display_of(state: PomodoroState) -> PhaseDisplay {
    match state {
        PomodoroState::Work => PhaseDisplay {
            work_rows: ACTIVE_FACE_ROWS,
            work_full: true,
            break_rows: IDLE_FACE_ROWS,
            break_full: false,
        },
        PomodoroState::Break => PhaseDisplay {
            work_rows: IDLE_FACE_ROWS,
            work_full: false,
            break_rows: ACTIVE_FACE_ROWS,
            break_full: true,
        },
    }
}

/// How the timer faces of a session in phase `state` are drawn.
pub fn phase_display(state: PomodoroState) -> (r: PhaseDisplay)
    ensures
        r == display_of(state),
{
    match state {
        PomodoroState::Work => PhaseDisplay {
            work_rows: ACTIVE_FACE_ROWS,
            work_full: true,
            break_rows: IDLE_FACE_ROWS,
            break_full: false,
        },
        PomodoroState::Break => PhaseDisplay {
            work_rows: IDLE_FACE_ROWS,
            work_full: false,
            break_rows: ACTIVE_FACE_ROWS,
            break_full: true,
        },
    }
}

/// The label of the start/pause key: what pressing it would do.
pub fn start_pause_label(running: bool) -> (r: &'static str)
    ensures
        r@ == if running {
            "Pause "@
        } else {
            "Start "@
        },
{
    if running {
        "Pause "
    } else {
        "Start "
    }
}

/// The percentages of the screen's width for the picture and for the timers.
pub fn panel_widths(hide_image: bool) -> (r: (u16, u16))
    ensures
        r == if hide_image {
            (0u16, 100u16)
        } else {
            (50u16, 50u16)
        },
        r.0 + r.1 == 100,
{
    if hide_image {
        (0, 100)
    } else {
        (50, 50)
    }
}

/// The picture of phase `state`: the computer while working, the cat during
/// a break.
pub fn phase_image(state: PomodoroState) -> (r: Vec<String>)
    ensures
        r@.len() == 10,
        forall|i: int|
            0 <= i < 10 ==> #[trigger] r@[i]@ == match state {
                PomodoroState::Work => computer_art()[i],
                PomodoroState::Break => sleeping_cat_art()[i],
            },
{
    match state {
        PomodoroState::Work => computer(),
        PomodoroState::Break => sleeping_cat(),
    }
}

} // verus!
