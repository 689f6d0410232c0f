use m6502::clock::{Clock, ClockMode};

#[test]
fn speedy_clock_never_sleeps() {
    let mut clock = Clock::new(ClockMode::Speedy);
    assert_eq!(clock.wait_for_tick(1000, 0), 0);
    assert_eq!(clock.wait_for_tick(u16::MAX, 5), 0);
}

#[test]
fn normal_clock_sleeps_until_ticks_are_due() {
    // 1000 Hz: a tick is 1 ms
    let mut clock = Clock::new(ClockMode::Normal).with_clock_speed(1_000);
    assert_eq!(clock.wait_for_tick(5, 0), 5_000_000);
    // ticks accumulate from the same reference
    assert_eq!(clock.wait_for_tick(5, 5_000_000), 5_000_000);
    // 1 MHz by default: a tick is 1 us
    let mut clock = Clock::default();
    assert_eq!(clock.wait_for_tick(5_000, 1_000_000), 4_000_000);
}

#[test]
fn late_clock_reanchors() {
    let mut clock = Clock::new(ClockMode::Normal).with_clock_speed(10);
    // due at 200 ms, asked at 300 ms: no sleep, counting restarts at 300 ms
    assert_eq!(clock.wait_for_tick(2, 300_000_000), 0);
    assert_eq!(clock.wait_for_tick(1, 300_000_000), 100_000_000);
}
