//! The countdown timer decays with the wall clock, not with how often it is
//! polled.

use chip8::timer::Timer;

#[test]
fn timer_starts_at_zero() {
    let mut t = Timer::new(60, 0);
    assert_eq!(t.get_value(), 0);
}

#[test]
fn timer_set_and_get() {
    let mut t = Timer::new(60, 0);
    t.set_value(42, 7);
    assert_eq!(t.get_value(), 42);
}

#[test]
fn timer_at_zero_stays_at_zero() {
    let mut t = Timer::new(60, 0);
    t.tick(1_000_000);
    assert_eq!(t.get_value(), 0);
}

#[test]
fn timer_decrements_only_after_full_interval() {
    // Set to 5, then tick with timestamps advancing 5 ms at a time: the
    // value must not drop until the elapsed time crosses a full 60 Hz
    // interval (1000 / 60 = 16 ms), once per crossing.
    let mut t = Timer::new(60, 0);
    t.set_value(5, 0);
    let mut now: u64 = 0;
    let mut seen = Vec::new();
    for _ in 0..8 {
        now += 5;
        t.tick(now);
        seen.push(t.get_value());
    }
    assert_eq!(seen, vec![5, 5, 5, 4, 4, 4, 4, 3]);
}

#[test]
fn timer_one_decrement_per_tick_even_after_long_gap() {
    // A single tick after a long pause still decrements by exactly one.
    let mut t = Timer::new(60, 0);
    t.set_value(5, 0);
    t.tick(10_000);
    assert_eq!(t.get_value(), 4);
}

#[test]
fn timer_set_restarts_interval() {
    let mut t = Timer::new(60, 0);
    t.set_value(5, 100);
    t.tick(110);
    assert_eq!(t.get_value(), 5);
    t.tick(120);
    assert_eq!(t.get_value(), 4);
}
