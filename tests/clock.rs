use wsld::clock::{decide, ClockDecision};

#[test]
fn offset_just_under_half_a_second_is_slewed() {
    assert_eq!(
        decide(0, 0, 499_999),
        ClockDecision::Slew { adjust_micros: 499_999 }
    );
    assert_eq!(
        decide(1_000_000, 1_000_000, 500_001),
        ClockDecision::Slew { adjust_micros: -499_999 }
    );
}

#[test]
fn offset_of_half_a_second_steps() {
    assert_eq!(
        decide(0, 0, 500_000),
        ClockDecision::Step { seconds: 0, subsec_micros: 500_000, offset_micros: 500_000 }
    );
    assert_eq!(
        decide(1_000_000, 1_000_000, 500_000),
        ClockDecision::Step { seconds: 0, subsec_micros: 500_000, offset_micros: -500_000 }
    );
}

#[test]
fn backward_jump_skips_the_round() {
    assert_eq!(decide(2_000_000, 1_999_999, 5_000_000), ClockDecision::Skip);
}

#[test]
fn half_the_round_trip_is_added() {
    // 200 us round trip: the host's time is taken as 100 us old
    assert_eq!(
        decide(0, 200, 1_000_000),
        ClockDecision::Step { seconds: 1, subsec_micros: 100, offset_micros: 999_900 }
    );
    assert_eq!(
        decide(10_000_000, 10_000_300, 10_000_000),
        ClockDecision::Slew { adjust_micros: -150 }
    );
}

#[test]
fn equal_clocks_slew_by_nothing() {
    assert_eq!(decide(5, 5, 5), ClockDecision::Slew { adjust_micros: 0 });
}

#[test]
fn largest_timestamps_do_not_overflow() {
    assert_eq!(
        decide(0, u64::MAX, u64::MAX),
        ClockDecision::Step {
            seconds: ((u64::MAX as u128 + (u64::MAX / 2) as u128) / 1_000_000) as u64,
            subsec_micros: ((u64::MAX as u128 + (u64::MAX / 2) as u128) % 1_000_000) as u32,
            offset_micros: (u64::MAX / 2) as i128,
        }
    );
}
