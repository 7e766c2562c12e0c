//! Clock synchronisation: from the host's reply and the two local readings
//! around it, decide whether to step the guest clock, slew it, or skip the
//! round.
use vstd::prelude::*;

verus! {

/// Offsets at or beyond this many microseconds, either way, step the clock;
/// smaller ones are slewed.
pub const STEP_THRESHOLD_MICROS: u64 = 500_000;

/// Microseconds in one second.
pub const MICROS_PER_SEC: u64 = 1_000_000;

/// The host's time corrected by half the round trip, in microseconds since
/// the epoch. Meaningful only when `end >= start`.
pub open spec fn estimated_time(start: u64, end: u64, remote: u64) -> int {
    remote + (end - start) / 2
}

/// The signed offset of the local clock: estimated time minus local time at
/// the end of the exchange.
pub open spec fn clock_offset(start: u64, end: u64, remote: u64) -> int {
    estimated_time(start, end, remote) - end
}

pub open spec fn abs(x: int) -> int {
    if x < 0 { -x } else { x }
}

/// What one synchronisation round does to the local clock.
#[derive(Clone, Copy, Debug, PartialEq, Eq, Structural)]
pub enum ClockDecision {
    /// The local clock went backwards during the exchange: someone else
    /// changed the time, so this round does nothing and succeeds.
    Skip,
    /// Set the clock to the estimated time (`seconds` and the microseconds
    /// past it); `offset_micros` is how far off the clock was.
    Step { seconds: u64, subsec_micros: u32, offset_micros: i128 },
    /// Adjust the clock smoothly by `adjust_micros`, in one shot.
    Slew { adjust_micros: i64 },
}

/// The decision for a round in which the local clock read `start` before
/// the request and `end` after the reply, and the host replied `remote`
/// (all microseconds since the epoch).
pub open spec fn clock_decision(start: u64, end: u64, remote: u64) -> ClockDecision {
    if end < start {
        ClockDecision::Skip
    } else if abs(clock_offset(start, end, remote)) >= STEP_THRESHOLD_MICROS {
        let t = estimated_time(start, end, remote);
        ClockDecision::Step {
            seconds: (t / MICROS_PER_SEC as int) as u64,
            subsec_micros: (t % MICROS_PER_SEC as int) as u32,
            offset_micros: clock_offset(start, end, remote) as i128,
        }
    } else {
        ClockDecision::Slew { adjust_micros: clock_offset(start, end, remote) as i64 }
    }
}

/// Decides one synchronisation round. One-way delay is taken as half the
/// round trip; a backward jump of the local clock skips the round.
pub fn decide(start: u64, end: u64, remote: u64) -> (r: ClockDecision)
    ensures
        r == clock_decision(start, end, remote),
        end < start <==> r is Skip,
        end >= start && abs(clock_offset(start, end, remote)) >= STEP_THRESHOLD_MICROS
            <==> r is Step,
        r matches ClockDecision::Step { seconds, subsec_micros, offset_micros } ==> seconds
            * MICROS_PER_SEC + subsec_micros == estimated_time(start, end, remote)
            && subsec_micros < MICROS_PER_SEC && offset_micros == clock_offset(start, end, remote),
        r matches ClockDecision::Slew { adjust_micros } ==> adjust_micros == clock_offset(
            start,
            end,
            remote,
        ) && -500_000 < adjust_micros < 500_000,
{
    if end < start {
        return ClockDecision::Skip;
    }
    let delay: u64 = (end - start) / 2;
    let t: u128 = remote as u128 + delay as u128;
    let offset: i128 = t as i128 - end as i128;
    assert(t == estimated_time(start, end, remote));
    assert(offset == clock_offset(start, end, remote));
    if offset >= STEP_THRESHOLD_MICROS as i128 || offset <= -(STEP_THRESHOLD_MICROS as i128) {
        let seconds: u128 = t / (MICROS_PER_SEC as u128);
        let sub: u128 = t % (MICROS_PER_SEC as u128);
        assert(seconds * MICROS_PER_SEC + sub == t) by (nonlinear_arith)
            requires
                seconds == t / 1_000_000,
                sub == t % 1_000_000,
                MICROS_PER_SEC == 1_000_000,
        ;
        assert(seconds <= u64::MAX) by (nonlinear_arith)
            requires
                seconds == t / 1_000_000,
                t <= 2 * 0xffff_ffff_ffff_ffffu128,
        ;
        ClockDecision::Step {
            seconds: seconds as u64,
            subsec_micros: sub as u32,
            offset_micros: offset,
        }
    } else {
        ClockDecision::Slew { adjust_micros: offset as i64 }
    }
}

/// The boundary between slewing and stepping: a round whose offset is
/// under half a second either way is slewed by exactly that offset, one of
/// half a second or more steps the clock, and a backward jump of the local
/// clock during the exchange skips the round.
pub proof fn clock_decision_boundary(start: u64, end: u64, remote: u64)
    ensures
        end < start ==> clock_decision(start, end, remote) == ClockDecision::Skip,
        end >= start && abs(clock_offset(start, end, remote)) < 500_000 ==> clock_decision(
            start,
            end,
            remote,
        ) == (ClockDecision::Slew { adjust_micros: clock_offset(start, end, remote) as i64 }),
        end >= start && abs(clock_offset(start, end, remote)) >= 500_000 ==> clock_decision(
            start,
            end,
            remote,
        ) is Step,
        end >= start && clock_offset(start, end, remote) == 499_999 ==> clock_decision(
            start,
            end,
            remote,
        ) == (ClockDecision::Slew { adjust_micros: 499_999 }),
        end >= start && clock_offset(start, end, remote) == 500_000 ==> clock_decision(
            start,
            end,
            remote,
        ) is Step,
{
}

} // verus!
