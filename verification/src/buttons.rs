//! Button snapshots and the polarity-aware interpretation of raw line levels.

use vstd::prelude::*;

verus! {

/// An instantaneous snapshot of the five buttons.  Produced wholesale on
/// every poll; the previous snapshot is discarded, never merged, so there is
/// no debounce state or history.
#[derive(Clone, Copy, Debug, PartialEq, Eq, Structural)]
pub struct ButtonState {
    pub up: bool,
    pub down: bool,
    pub left: bool,
    pub right: bool,
    pub center: bool,
}

impl ButtonState {
    /// The snapshot with no button pressed.
    pub open spec fn released() -> ButtonState {
        ButtonState { up: false, down: false, left: false, right: false, center: false }
    }
}

/// Which electrical level on a button line means "pressed".  Hardware
/// revisions disagree on this, so it is an explicit configuration choice,
/// not an assumption baked into the sampling code.
#[derive(Clone, Copy, Debug, PartialEq, Eq, Structural)]
pub enum ActiveLevel {
    /// A high level means pressed.
    High,
    /// A low level means pressed.
    Low,
}

/// Whether a raw line level counts as pressed under the given polarity.
pub open spec fn pressed(level_high: bool, active: ActiveLevel) -> bool {
    match active {
        ActiveLevel::High => level_high,
        ActiveLevel::Low => !level_high,
    }
}

/// Interpret the five raw line levels (`true` = electrically high) as a
/// fresh snapshot under the configured polarity.  A single read is trusted:
/// no filtering or hysteresis is applied.
pub fn sample_buttons(
    active: ActiveLevel,
    up_high: bool,
    down_high: bool,
    left_high: bool,
    right_high: bool,
    center_high: bool,
) -> (snapshot: ButtonState)
    ensures
        snapshot.up == pressed(up_high, active),
        snapshot.down == pressed(down_high, active),
        snapshot.left == pressed(left_high, active),
        snapshot.right == pressed(right_high, active),
        snapshot.center == pressed(center_high, active),
{
    let invert = match active {
        ActiveLevel::High => false,
        ActiveLevel::Low => true,
    };
    if invert {
        ButtonState {
            up: !up_high,
            down: !down_high,
            left: !left_high,
            right: !right_high,
            center: !center_high,
        }
    } else {
        ButtonState {
            up: up_high,
            down: down_high,
            left: left_high,
            right: right_high,
            center: center_high,
        }
    }
}

} // verus!
