use pomodoro_tui::clock::clamp_reading;
use pomodoro_tui::clock::Clock;
use pomodoro_tui::face::format_min_sec;
use pomodoro_tui::get_min_sec_from_duration;
use pomodoro_tui::Timer;

const SEC: u64 = 1_000_000_000;

#[test]
fn test_timer_start_or_pause() {
    let mut timer = Timer::new(1, 15);
    timer.start_or_pause_at(5);
    assert!(timer.is_running());
    let elapsed = timer.elapsed_at(6);
    assert!(timer.elapsed_at(6) > 0);
    assert!(timer.remaining_at(6) < timer.duration() as u128 * SEC as u128);
    timer.start_or_pause_at(6 + SEC + 1);
    assert!(!timer.is_running());
    assert!(timer.elapsed_at(10 * SEC) > elapsed + SEC as u128);
    assert_eq!(
        timer.remaining_at(10 * SEC),
        timer.duration() as u128 * SEC as u128 - timer.elapsed_at(10 * SEC)
    );
}

#[test]
fn test_timer_reset() {
    let mut timer = Timer::new(1, 15);
    timer.start_or_pause_at(0);
    timer.reset();
    assert_eq!(timer.elapsed_at(SEC), 0);
    assert!(!timer.is_running());
    assert_eq!(timer.remaining_at(SEC), 75 * SEC as u128);
}

#[test]
fn test_timer_remaining() {
    let mut timer = Timer::new(0, 3);
    assert_eq!(timer.remaining_at(0) / SEC as u128, 3);
    timer.start_or_pause_at(0);
    assert!(timer.remaining_at(SEC) / SEC as u128 > 0);
    assert_eq!(timer.remaining_at(4 * SEC) / SEC as u128, 0);
}

#[test]
fn test_timer_display() {
    let timer = Timer::new(1, 125);
    assert_eq!(timer.format(), "03:05");
}

#[test]
fn test_get_min_sec_from_duration() {
    let (minutes, seconds) = get_min_sec_from_duration(125);
    assert_eq!(minutes, 2);
    assert_eq!(seconds, 5);
}

#[test]
fn fresh_timer_has_whole_duration_and_is_stopped() {
    for d in [0u64, 1, 59, 60, 125, 3600] {
        let timer = Timer::new(0, d);
        assert!(!timer.is_running());
        assert_eq!(timer.remaining_at(0), d as u128 * SEC as u128);
        assert_eq!(timer.remaining_at(123 * SEC), d as u128 * SEC as u128);
        assert_eq!(timer.remaining(), d as u128 * SEC as u128);
        assert_eq!(timer.elapsed(), 0);
    }
}

#[test]
fn remaining_and_elapsed_add_up_then_clamp() {
    let mut timer = Timer::new(0, 3);
    timer.start_or_pause_at(0);
    for now in [0u64, 1, SEC, 2 * SEC + 7, 3 * SEC] {
        assert_eq!(timer.remaining_at(now) + timer.elapsed_at(now), 3 * SEC as u128);
    }
    assert_eq!(timer.remaining_at(3 * SEC + 1), 0);
    assert_eq!(timer.remaining_at(100 * SEC), 0);
    assert_eq!(timer.format_at(100 * SEC), "00:00");
}

#[test]
fn reset_twice_is_reset_once() {
    let mut once = Timer::new(2, 0);
    once.start_or_pause_at(10);
    once.start_or_pause_at(20);
    once.reset();
    let mut twice = Timer::new(2, 0);
    twice.start_or_pause_at(10);
    twice.reset();
    twice.reset();
    assert_eq!(once.is_running(), twice.is_running());
    assert_eq!(once.elapsed_at(50), twice.elapsed_at(50));
    assert_eq!(once.remaining_at(50), twice.remaining_at(50));
    assert_eq!(twice.elapsed_at(50), 0);
}

#[test]
fn pause_keeps_running_time_across_the_pause() {
    let mut timer = Timer::new(10, 0);
    timer.start_or_pause_at(SEC);
    timer.start_or_pause_at(3 * SEC);
    timer.start_or_pause_at(50 * SEC);
    timer.start_or_pause_at(55 * SEC);
    assert!(!timer.is_running());
    assert_eq!(timer.elapsed_at(1000 * SEC), 7 * SEC as u128);
    assert_eq!(timer.format_at(1000 * SEC), "09:53");
}

#[test]
fn pause_and_resume_at_one_reading_changes_nothing() {
    let mut timer = Timer::new(1, 0);
    timer.start_or_pause_at(SEC);
    timer.start_or_pause_at(4 * SEC);
    let before = timer.elapsed_at(9 * SEC);
    timer.start_or_pause_at(9 * SEC);
    timer.start_or_pause_at(9 * SEC);
    assert_eq!(timer.elapsed_at(9 * SEC), before);
    assert!(!timer.is_running());
}

#[test]
fn reading_before_the_start_counts_as_no_time() {
    let mut timer = Timer::new(0, 5);
    timer.start_or_pause_at(10 * SEC);
    assert_eq!(timer.elapsed_at(SEC), 0);
    assert_eq!(timer.format_at(SEC), "00:05");
}

#[test]
fn fresh_timer_face_is_minutes_and_seconds() {
    let timer = Timer::new(2, 5);
    assert_eq!(timer.format(), "02:05");
    let timer = Timer::new(0, 125);
    assert_eq!(timer.format_at(0), "02:05");
}

#[test]
fn face_reads_back_as_minutes_and_seconds() {
    for (m, s) in [(0u64, 0u64), (0, 9), (2, 5), (25, 0), (59, 59), (100, 1), (1234, 30)] {
        let face = Timer::new(m, s).format();
        let (mm, ss) = face.split_at(face.len() - 3);
        assert_eq!(mm.parse::<u64>().unwrap(), m);
        assert_eq!(ss[1..].parse::<u64>().unwrap(), s);
        assert_eq!(&ss[..1], ":");
    }
}

#[test]
fn face_of_long_durations_has_more_minute_digits() {
    assert_eq!(format_min_sec(100 * 60), "100:00");
    assert_eq!(format_min_sec(0), "00:00");
    assert_eq!(format_min_sec(59), "00:59");
    assert_eq!(format_min_sec(60), "01:00");
    assert_eq!(format_min_sec(u64::MAX), "307445734561825860:15");
}

#[test]
fn whole_seconds_left_are_rounded_down() {
    let mut timer = Timer::new(0, 3);
    timer.start_or_pause_at(0);
    assert_eq!(timer.format_at(1), "00:02");
    assert_eq!(timer.format_at(SEC), "00:02");
    assert_eq!(timer.format_at(SEC + 1), "00:01");
}

#[test]
fn clock_readings_do_not_go_back() {
    let clock = Clock::start();
    let a = clock.now();
    let b = clock.now();
    assert!(a <= b);
}

#[test]
fn clock_readings_saturate() {
    assert_eq!(clamp_reading(0), 0);
    assert_eq!(clamp_reading(12345), 12345);
    assert_eq!(clamp_reading(u64::MAX as u128), u64::MAX);
    assert_eq!(clamp_reading(u64::MAX as u128 + 1), u64::MAX);
}
