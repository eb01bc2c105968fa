//! Hand phases: where on the dial each hand points for a given time of day.
//!
//! A phase is a reduced fraction of a full clockwise turn measured from the
//! top of the face.  The platform layer resolves a phase into a fixed-point
//! unit vector; the fraction arithmetic itself is exact and verified here.

use vstd::prelude::*;
use vstd::arithmetic::div_mod::lemma_mod_add_multiples_vanish;

verus! {

/// Seconds in a day: the hour hand's period.
pub const SECONDS_PER_DAY: u32 = 86400;

/// The minute hand's period in seconds.  The deployed device divides by
/// 3660, not 3600, so its minute hand completes a turn slightly slower than
/// real minutes; this is kept intentionally as observable behavior.
pub const MINUTE_HAND_PERIOD: u32 = 3660;

/// Seconds in a minute: the second hand's period.
pub const SECONDS_PER_MINUTE: u32 = 60;

/// Hour positions on the dial.
pub const HOURS_ON_FACE: u32 = 12;

/// A fraction `num / den` of a full clockwise turn, measured from the top
/// of the face, with `num < den`.
#[derive(Clone, Copy, Debug, PartialEq, Eq, Structural)]
pub struct Phase {
    pub num: u32,
    pub den: u32,
}

impl Phase {
    /// A phase is a proper fraction of one turn.
    pub open spec fn wf(self) -> bool {
        0 < self.den && self.num < self.den
    }
}

/// The phases of the three hands at one instant.
#[derive(Clone, Copy, Debug, PartialEq, Eq, Structural)]
pub struct HandPhases {
    pub hour: Phase,
    pub minute: Phase,
    pub second: Phase,
}

/// Where each hand points after `seconds` seconds: each hand advances one
/// full turn per its period, so its phase is the elapsed time reduced
/// modulo that period.
pub open spec fn hand_phases_at(seconds: u32) -> HandPhases {
    HandPhases {
        hour: Phase {
            num: (seconds as int % (SECONDS_PER_DAY as int)) as u32,
            den: SECONDS_PER_DAY,
        },
        minute: Phase {
            num: (seconds as int % (MINUTE_HAND_PERIOD as int)) as u32,
            den: MINUTE_HAND_PERIOD,
        },
        second: Phase {
            num: (seconds as int % (SECONDS_PER_MINUTE as int)) as u32,
            den: SECONDS_PER_MINUTE,
        },
    }
}

/// Compute the three hand phases for a time value.  Total: any `seconds`
/// value is accepted, values beyond one period wrapping around the dial.
pub fn hand_phases(seconds: u32) -> (phases: HandPhases)
    ensures
        phases == hand_phases_at(seconds),
        phases.hour.wf(),
        phases.minute.wf(),
        phases.second.wf(),
{
    HandPhases {
        hour: Phase { num: seconds % SECONDS_PER_DAY, den: SECONDS_PER_DAY },
        minute: Phase { num: seconds % MINUTE_HAND_PERIOD, den: MINUTE_HAND_PERIOD },
        second: Phase { num: seconds % SECONDS_PER_MINUTE, den: SECONDS_PER_MINUTE },
    }
}

/// The phase of hour tick `hour_index` on the dial: one twelfth of a turn
/// per hour, the index 12 wrapping back to the top of the face.
pub open spec fn tick_phase_at(hour_index: u32) -> Phase {
    Phase { num: (hour_index as int % (HOURS_ON_FACE as int)) as u32, den: HOURS_ON_FACE }
}

/// Compute the phase of one hour tick.
pub fn tick_phase(hour_index: u32) -> (phase: Phase)
    requires
        hour_index <= HOURS_ON_FACE,
    ensures
        phase == tick_phase_at(hour_index),
        phase.wf(),
{
    Phase { num: hour_index % HOURS_ON_FACE, den: HOURS_ON_FACE }
}

/// Each hand's phase repeats exactly after its own period: a day for the
/// hour hand, sixty seconds for the second hand, and the device's
/// 3660-second period for the minute hand.
pub proof fn lemma_hand_phases_periodic(seconds: u32)
    requires
        seconds + SECONDS_PER_DAY <= u32::MAX,
    ensures
        hand_phases_at((seconds + SECONDS_PER_DAY) as u32).hour == hand_phases_at(
            seconds,
        ).hour,
        hand_phases_at((seconds + SECONDS_PER_MINUTE) as u32).second == hand_phases_at(
            seconds,
        ).second,
        hand_phases_at((seconds + MINUTE_HAND_PERIOD) as u32).minute == hand_phases_at(
            seconds,
        ).minute,
{
    lemma_mod_add_multiples_vanish(seconds as int, SECONDS_PER_DAY as int);
    lemma_mod_add_multiples_vanish(seconds as int, SECONDS_PER_MINUTE as int);
    lemma_mod_add_multiples_vanish(seconds as int, MINUTE_HAND_PERIOD as int);
}

/// The minute hand is not periodic at 3600 seconds: one real hour moves it
/// to a different phase, because its period is 3660 seconds.
pub proof fn lemma_minute_hand_not_hourly_periodic()
    ensures
        hand_phases_at(3600).minute != hand_phases_at(0).minute,
{
    assert(3600int % 3660 == 3600);
    assert(0int % 3660 == 0);
}

} // verus!
