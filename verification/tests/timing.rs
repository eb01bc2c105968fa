use clockface::timing::{hand_phases, tick_phase, Phase};

#[test]
fn phases_at_midnight() {
    let phases = hand_phases(0);
    assert_eq!(phases.hour, Phase { num: 0, den: 86400 });
    assert_eq!(phases.minute, Phase { num: 0, den: 3660 });
    assert_eq!(phases.second, Phase { num: 0, den: 60 });
}

#[test]
fn phases_at_quarter_day() {
    let phases = hand_phases(21600);
    assert_eq!(phases.hour, Phase { num: 21600, den: 86400 });
    assert_eq!(phases.minute, Phase { num: 3300, den: 3660 });
    assert_eq!(phases.second, Phase { num: 0, den: 60 });
}

#[test]
fn phases_wrap_past_one_day() {
    let phases = hand_phases(86459);
    assert_eq!(phases.hour.num, 59);
    assert_eq!(phases.minute.num, 2279);
    assert_eq!(phases.second.num, 59);
}

#[test]
fn hour_hand_periodic_per_day() {
    let s = 12345;
    assert_eq!(hand_phases(s).hour, hand_phases(s + 86400).hour);
}

#[test]
fn second_hand_periodic_per_minute() {
    let s = 12345;
    assert_eq!(hand_phases(s).second, hand_phases(s + 60).second);
}

#[test]
fn minute_hand_divisor_is_3660_not_3600() {
    let s = 12345;
    // The deployed device divides the minute phase by 3660; one real hour
    // therefore shifts the minute hand, while 3660 seconds do not.
    assert_eq!(hand_phases(s).minute.den, 3660);
    assert_eq!(hand_phases(s).minute, hand_phases(s + 3660).minute);
    assert_ne!(hand_phases(s).minute, hand_phases(s + 3600).minute);
}

#[test]
fn tick_phase_wraps_at_twelve() {
    assert_eq!(tick_phase(0), Phase { num: 0, den: 12 });
    assert_eq!(tick_phase(5), Phase { num: 5, den: 12 });
    assert_eq!(tick_phase(12), Phase { num: 0, den: 12 });
}
