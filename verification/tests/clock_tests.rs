use chronos_clock::breathing::{breathing_phase, breathing_scale, emanations, CYCLE_MICROS};
use chronos_clock::clock::VirtualClock;
use chronos_clock::scheduler::{poll_budget, tick_due, CADENCE_MICROS};

#[test]
fn new_clock_shows_now_at_unit_speed() {
    let clock = VirtualClock::new(1_700_000_000_000_000);
    assert_eq!(clock.virtual_micros, 1_700_000_000_000_000);
    assert_eq!(clock.last_real_micros, 1_700_000_000_000_000);
    assert_eq!(clock.multiplier_tenths, 10);
    assert!(!clock.is_accelerated());
}

#[test]
fn advance_scales_the_real_delta() {
    let mut clock = VirtualClock::new(1_000);
    clock.advance(2_000);
    assert_eq!(clock.virtual_micros, 2_000);
    assert_eq!(clock.last_real_micros, 2_000);
    clock.increase();
    clock.increase();
    clock.advance(2_105);
    // 105 microseconds at 1.2 are 126.
    assert_eq!(clock.virtual_micros, 2_126);
    assert_eq!(clock.last_real_micros, 2_105);
}

#[test]
fn advance_rounds_toward_zero() {
    let mut clock = VirtualClock::new(0);
    clock.decrease();
    clock.advance(15);
    // 15 microseconds at 0.9 are 13.5.
    assert_eq!(clock.virtual_micros, 13);
    clock.advance(0);
    // 15 microseconds back at 0.9 are 13.5 back.
    assert_eq!(clock.virtual_micros, 0);
}

#[test]
fn virtual_time_never_decreases_when_real_time_goes_on() {
    let mut clock = VirtualClock::new(5_000);
    let mut real: i64 = 5_000;
    let steps: [i64; 8] = [0, 1, 16_000, 3, 0, 999_999, 7, 16_001];
    let mut round: u32 = 0;
    while round < 40 {
        if round % 3 == 0 {
            clock.increase();
        } else if round % 7 == 0 {
            clock.decrease();
        }
        for step in steps {
            let before = clock.virtual_micros;
            real += step;
            clock.advance(real);
            assert!(clock.virtual_micros >= before);
        }
        round += 1;
    }
}

#[test]
fn frozen_at_multiplier_zero() {
    let mut clock = VirtualClock::new(42);
    for _ in 0..10 {
        clock.decrease();
    }
    assert_eq!(clock.multiplier_tenths, 0);
    let mut real: i64 = 42;
    for step in [1i64, 1_000, 16_000, 86_400_000_000, 3] {
        real += step;
        clock.advance(real);
        assert_eq!(clock.virtual_micros, 42);
        assert_eq!(clock.last_real_micros, real);
    }
}

#[test]
fn decrease_stops_at_zero() {
    let mut clock = VirtualClock::new(0);
    for _ in 0..25 {
        clock.decrease();
    }
    assert_eq!(clock.multiplier_tenths, 0);
    clock.increase();
    assert_eq!(clock.multiplier_tenths, 1);
}

#[test]
fn five_increases_from_unit_speed() {
    let mut clock = VirtualClock::new(0);
    for _ in 0..5 {
        clock.increase();
    }
    assert_eq!(clock.multiplier_tenths, 15);
    assert!(clock.is_accelerated());
    assert_eq!(clock.speed_label(), "1.5x");
}

#[test]
fn increase_stops_at_the_largest_multiplier() {
    let mut clock = VirtualClock { virtual_micros: 0, multiplier_tenths: u32::MAX, last_real_micros: 0 };
    clock.increase();
    assert_eq!(clock.multiplier_tenths, u32::MAX);
}

#[test]
fn virtual_time_stops_at_the_ends_of_its_range() {
    let mut clock = VirtualClock {
        virtual_micros: i64::MAX - 5,
        multiplier_tenths: 1_000,
        last_real_micros: 0,
    };
    clock.advance(1_000_000);
    assert_eq!(clock.virtual_micros, i64::MAX);
    let mut back = VirtualClock {
        virtual_micros: i64::MIN + 5,
        multiplier_tenths: u32::MAX,
        last_real_micros: i64::MAX,
    };
    back.advance(i64::MIN);
    assert_eq!(back.virtual_micros, i64::MIN);
    assert_eq!(back.last_real_micros, i64::MIN);
}

#[test]
fn speed_labels() {
    let mut clock = VirtualClock::new(0);
    assert_eq!(clock.speed_label(), "1.0x");
    clock.decrease();
    assert_eq!(clock.speed_label(), "0.9x");
    clock.multiplier_tenths = 0;
    assert_eq!(clock.speed_label(), "0.0x");
    clock.multiplier_tenths = 1234;
    assert_eq!(clock.speed_label(), "123.4x");
}

#[test]
fn breathing_scale_at_the_ends_of_the_phases() {
    assert_eq!(breathing_scale(0, 0), 0);
    assert_eq!(breathing_scale(4_000_000, 0), 1_000_000);
    assert_eq!(breathing_scale(4_500_000, 0), 1_000_000);
    assert_eq!(breathing_scale(5_000_000, 0), 1_000_000);
    assert_eq!(breathing_scale(13_000_000, 0), breathing_scale(0, 0));
    assert_eq!(breathing_scale(12_999_999, 0), 1);
    assert_eq!(breathing_scale(3_999_999, 0), 999_999);
}

#[test]
fn breathing_scale_inside_the_phases() {
    assert_eq!(breathing_scale(2_000_000, 0), 500_000);
    assert_eq!(breathing_scale(9_000_000, 0), 500_000);
    assert_eq!(breathing_scale(1, 0), 0);
    assert_eq!(breathing_scale(5_000_008, 0), 999_999);
    // An offset moves the ripple on in its cycle.
    assert_eq!(breathing_scale(0, 2_000_000), 500_000);
    assert_eq!(breathing_scale(1_000_000, 4_330_000), 1_000_000 - 330_000 / 8);
}

#[test]
fn breathing_scale_has_period_thirteen_seconds() {
    let instants: [i64; 7] = [0, 1, 3_999_999, 4_000_000, 7_654_321, 12_999_999, 1_700_000_000_123_456];
    for t in instants {
        for offset in [0i64, 4_330_000, 8_660_000] {
            assert_eq!(breathing_scale(t, offset), breathing_scale(t + 13_000_000, offset));
            assert_eq!(breathing_scale(t, offset), breathing_scale(t - 13_000_000, offset));
        }
    }
}

#[test]
fn breathing_scale_before_the_epoch() {
    assert_eq!(breathing_phase(-1, 0), 12_999_999);
    assert_eq!(breathing_scale(-1, 0), 1);
    assert_eq!(breathing_scale(-9_000_000, 0), 1_000_000);
    assert_eq!(breathing_phase(i64::MIN, i64::MIN) < CYCLE_MICROS, true);
    assert_eq!(breathing_phase(i64::MAX, i64::MAX) < CYCLE_MICROS, true);
}

#[test]
fn breathing_scale_has_no_jump() {
    let mut t: i64 = -20;
    while t < 13_000_020 {
        let here = breathing_scale(t, 0) as i64;
        let next = breathing_scale(t + 1, 0) as i64;
        assert!((next - here).abs() <= 1);
        t += if (t > 100 && t < 3_999_900) || (t > 5_000_100 && t < 12_999_900) { 9_973 } else { 1 };
    }
}

#[test]
fn three_ripples_a_third_of_a_cycle_apart() {
    let ripples = emanations();
    assert_eq!(ripples[0].phase_offset_micros, 0);
    assert_eq!(ripples[1].phase_offset_micros, 4_330_000);
    assert_eq!(ripples[2].phase_offset_micros, 8_660_000);
}

#[test]
fn poll_budget_is_what_is_left_of_the_window() {
    assert_eq!(CADENCE_MICROS, 16_000);
    assert_eq!(poll_budget(0), 16_000);
    assert_eq!(poll_budget(15_999), 1);
    assert_eq!(poll_budget(16_000), 0);
    assert_eq!(poll_budget(1_000_000), 0);
    assert_eq!(poll_budget(u64::MAX), 0);
}

#[test]
fn tick_is_due_once_the_window_has_run_out() {
    assert!(!tick_due(0));
    assert!(!tick_due(15_999));
    assert!(tick_due(16_000));
    assert!(tick_due(16_001));
    for elapsed in [0u64, 5, 15_999, 16_000, 40_000] {
        assert!(tick_due(elapsed + poll_budget(elapsed)));
    }
}
