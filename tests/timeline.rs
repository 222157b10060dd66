use blinky::blink::{Level, DELAY_DURATION_MS};
use blinky::timeline::{simulate, Phase};

#[test]
fn two_and_a_half_periods_end_high() {
    let t = simulate(DELAY_DURATION_MS, 2500);
    assert_eq!(t.full_phases(Level::High), 2);
    assert_eq!(t.full_phases(Level::Low), 2);
    assert_eq!(t.level, Level::High);
    assert_eq!(t.writes, 5);
}

#[test]
fn phases_alternate_with_equal_length() {
    let t = simulate(500, 2500);
    let expected = vec![
        Phase { level: Level::High, start_ms: 0, duration_ms: 500 },
        Phase { level: Level::Low, start_ms: 500, duration_ms: 500 },
        Phase { level: Level::High, start_ms: 1000, duration_ms: 500 },
        Phase { level: Level::Low, start_ms: 1500, duration_ms: 500 },
    ];
    assert_eq!(t.phases, expected);
}

#[test]
fn period_is_one_second() {
    let t = simulate(DELAY_DURATION_MS, 10_000);
    for w in t.phases.windows(3) {
        assert_eq!(w[2].start_ms - w[0].start_ms, 1000);
        assert_eq!(w[0].duration_ms + w[1].duration_ms, 1000);
        assert_eq!(w[0].level, w[2].level);
    }
    assert_eq!(t.full_phases(Level::High), t.full_phases(Level::Low) + 1);
}

#[test]
fn empty_run_leaves_pin_low() {
    let t = simulate(500, 0);
    assert!(t.phases.is_empty());
    assert_eq!(t.level, Level::Low);
    assert_eq!(t.writes, 0);
}

#[test]
fn first_millisecond_drives_high() {
    let t = simulate(500, 1);
    assert!(t.phases.is_empty());
    assert_eq!(t.level, Level::High);
    assert_eq!(t.writes, 1);
}

#[test]
fn run_just_past_a_boundary_writes_again() {
    let t = simulate(500, 2501);
    assert_eq!(t.writes, 6);
    assert_eq!(t.level, Level::Low);
    assert_eq!(t.full_phases(Level::High), 3);
    assert_eq!(t.full_phases(Level::Low), 2);
}

#[test]
fn longest_delay_keeps_exact_starts() {
    let d = u32::MAX;
    let t = simulate(d, 3 * d as u64);
    assert_eq!(t.writes, 3);
    assert_eq!(t.phases.len(), 2);
    assert_eq!(t.phases[1].start_ms, d as u64);
    assert_eq!(t.phases[1].duration_ms, d as u64);
    assert_eq!(t.level, Level::High);
}
