use sit_stand_timer::args::Args;
use sit_stand_timer::display::{format_clock, micros_to_seconds};
use sit_stand_timer::phase::Phase;
use sit_stand_timer::timer::{App, MICROS_PER_MINUTE};

const SECOND: i64 = 1_000_000;

#[test]
fn clock_text_formats_minutes_and_padded_seconds() {
    assert_eq!(format_clock(125), "2:05");
    assert_eq!(format_clock(59), "0:59");
    assert_eq!(format_clock(3600), "60:00");
    assert_eq!(format_clock(0), "0:00");
    assert_eq!(format_clock(600), "10:00");
}

#[test]
fn clock_text_of_negative_seconds_has_a_sign() {
    assert_eq!(format_clock(-30), "-0:30");
    assert_eq!(format_clock(-125), "-2:05");
}

#[test]
fn clock_text_of_extreme_values() {
    assert_eq!(format_clock(i128::MAX).len() > 4, true);
    assert!(format_clock(i128::MIN).starts_with('-'));
}

#[test]
fn seconds_round_toward_zero() {
    assert_eq!(micros_to_seconds(59_999_999), 59);
    assert_eq!(micros_to_seconds(-1_500_000), -1);
    assert_eq!(micros_to_seconds(-999_999), 0);
    assert_eq!(micros_to_seconds(0), 0);
    assert_eq!(micros_to_seconds(i128::MIN), i128::MIN / 1_000_000);
}

#[test]
fn phase_labels() {
    assert_eq!(Phase::Sit.label(), "Sit");
    assert_eq!(Phase::Stand.label(), "Stand");
    assert_eq!(Phase::Sit.next(), Phase::Stand);
    assert_eq!(Phase::Stand.next(), Phase::Sit);
}

#[test]
fn default_args_are_twenty_and_five_minutes() {
    let a = Args::default();
    assert_eq!(a.sit_time, 20);
    assert_eq!(a.stand_time, 5);
}

#[test]
fn new_timer_starts_sitting_with_full_time() {
    let mut app = App::new(20, 5);
    app.start_at(1_000);
    assert_eq!(app.current_phase(), Phase::Sit);
    assert!(!app.should_exit());
    assert_eq!(app.remaining(1_000), 20 * MICROS_PER_MINUTE as i128);
    assert_eq!(app.clock_text(1_000), "20:00");
    assert_eq!(app.clock_text(1_000 + 61 * SECOND), "18:59");
}

#[test]
fn remaining_is_the_same_for_the_same_time() {
    let mut app = App::new(3, 2);
    app.start_at(0);
    let a = app.remaining(42 * SECOND);
    let b = app.remaining(42 * SECOND);
    assert_eq!(a, b);
    assert_eq!(a, (180 - 42) as i128 * SECOND as i128);
}

#[test]
fn sit_flips_to_stand_after_a_minute() {
    let mut app = App::new(1, 1);
    app.start_at(0);
    app.advance(60 * SECOND);
    assert_eq!(app.current_phase(), Phase::Sit);
    assert_eq!(app.clock_text(60 * SECOND), "0:00");
    app.advance(61 * SECOND);
    assert_eq!(app.current_phase(), Phase::Stand);
    assert_eq!(app.clock_text(61 * SECOND), "1:00");
}

#[test]
fn overdue_tick_flips_exactly_once() {
    let mut app = App::new(1, 2);
    app.start_at(0);
    let now = 90 * SECOND;
    assert!(app.remaining(now) < 0);
    app.advance(now);
    assert_eq!(app.current_phase(), Phase::Stand);
    assert_eq!(app.remaining(now), 2 * MICROS_PER_MINUTE as i128);
    app.advance(now);
    assert_eq!(app.current_phase(), Phase::Stand);
    assert_eq!(app.remaining(now), 2 * MICROS_PER_MINUTE as i128);
}

#[test]
fn stand_flips_back_to_sit() {
    let mut app = App::new(1, 1);
    app.start_at(0);
    app.advance(61 * SECOND);
    app.advance(121 * SECOND);
    assert_eq!(app.current_phase(), Phase::Stand);
    app.advance(122 * SECOND);
    assert_eq!(app.current_phase(), Phase::Sit);
    assert_eq!(app.clock_text(122 * SECOND), "1:00");
}

#[test]
fn zero_sit_flips_on_first_tick() {
    let mut app = App::new(0, 5);
    app.start_at(10);
    app.advance(11);
    assert_eq!(app.current_phase(), Phase::Stand);
    assert_eq!(app.clock_text(11), "5:00");
}

#[test]
fn zero_lengths_toggle_every_tick() {
    let mut app = App::new(0, 0);
    app.start_at(0);
    app.advance(0);
    assert_eq!(app.current_phase(), Phase::Sit);
    app.advance(1);
    assert_eq!(app.current_phase(), Phase::Stand);
    app.advance(2);
    assert_eq!(app.current_phase(), Phase::Sit);
}

#[test]
fn phase_follows_the_cycle_when_ticked_every_unit() {
    let sit: u32 = 0;
    let stand: u32 = 0;
    let mut app = App::new(sit, stand);
    app.start_at(100);
    for t in 0..20i64 {
        app.advance(100 + t);
        let expected = if t % 2 <= 0 { Phase::Sit } else { Phase::Stand };
        assert_eq!(app.current_phase(), expected);
    }
}

#[test]
fn switches_lag_by_the_tick_spacing() {
    // Ticks every quarter second: each phase ends at the first tick after it ran out.
    let mut app = App::new(1, 1);
    app.start_at(0);
    let step = SECOND / 4;
    let mut switches: Vec<i64> = Vec::new();
    let mut t: i64 = 0;
    while t <= 5 * MICROS_PER_MINUTE {
        let before = app.current_phase();
        app.advance(t);
        if app.current_phase() != before {
            switches.push(t);
        }
        t += step;
    }
    assert_eq!(
        switches,
        vec![60_250_000, 120_500_000, 180_750_000, 241_000_000]
    );
    assert_eq!(app.current_phase(), Phase::Sit);
}

#[test]
fn quit_key_sets_exit() {
    let mut app = App::new(20, 5);
    app.handle_key('x', true);
    assert!(!app.should_exit());
    app.handle_key('q', false);
    assert!(!app.should_exit());
    app.handle_key('Q', true);
    assert!(!app.should_exit());
    app.handle_key('e', true);
    assert!(!app.should_exit());
    app.handle_key('q', true);
    assert!(app.should_exit());
    app.handle_key('x', true);
    assert!(app.should_exit());
}

#[test]
fn clock_reading_tick_keeps_a_long_phase() {
    let mut app = App::new(20, 5);
    let started = app.start().expect("the system clock reads a time after 1970");
    assert!(started > 0);
    assert_eq!(app.remaining(started), 20 * MICROS_PER_MINUTE as i128);
    let now = app.advance_now().expect("the system clock reads a time after 1970");
    assert_eq!(app.current_phase(), Phase::Sit);
    let left = app.remaining(now);
    assert!(left <= 20 * MICROS_PER_MINUTE as i128);
    assert!(left > 19 * MICROS_PER_MINUTE as i128);
}

#[test]
fn largest_lengths_do_not_overflow() {
    let mut app = App::new(u32::MAX, u32::MAX);
    app.start_at(i64::MIN);
    let full = u32::MAX as i128 * MICROS_PER_MINUTE as i128;
    assert_eq!(app.remaining(i64::MIN), full);
    assert_eq!(app.remaining(i64::MAX), full - (i64::MAX as i128 - i64::MIN as i128));
    assert_eq!(app.clock_text(i64::MIN), format!("{}:00", u32::MAX));
    app.advance(i64::MAX);
    assert_eq!(app.current_phase(), Phase::Stand);
}
