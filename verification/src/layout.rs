//! The clock face layout: the fixed placement constants of the device.

use vstd::prelude::*;
use crate::primitives::{Point, MAX_SCALED_LEN};

verus! {

/// Number of hour ticks drawn on the face: indices 0 through 12 inclusive,
/// the thirteenth repeating the top-of-face direction after a full turn.
pub const TICK_COUNT: usize = 13;

/// Placement constants of the clock face and the button indicator panel.
/// Constructed once at startup and never changed.
#[derive(Clone, Copy, Debug, PartialEq, Eq, Structural)]
pub struct ClockLayout {
    /// Center of the clock face.
    pub center: Point,
    /// Outer radius of the face; also the radius of the bezel circle.
    pub radius: i32,
    /// Length of an hour tick.
    pub tick_len: i32,
    /// Distance from the outer radius to the outer end of a tick.
    pub tick_offset: i32,
    /// The hour hand is `radius - hour_inset` long.
    pub hour_inset: i32,
    /// The minute hand is `radius - minute_inset` long.
    pub minute_inset: i32,
    /// The second hand is `radius - second_inset` long.
    pub second_inset: i32,
    /// Radius of each button indicator circle.
    pub button_radius: u32,
    /// Indicator position for the up button.
    pub button_up: Point,
    /// Indicator position for the down button.
    pub button_down: Point,
    /// Indicator position for the left button.
    pub button_left: Point,
    /// Indicator position for the right button.
    pub button_right: Point,
    /// Indicator position for the center button.
    pub button_center: Point,
}

impl ClockLayout {
    /// Well-formedness: every radial distance the geometry derives is
    /// nonnegative and small enough that no projection or offset overflows.
    pub open spec fn wf(self) -> bool {
        &&& 0 < self.radius <= MAX_SCALED_LEN
        &&& 0 <= self.tick_offset
        &&& 0 < self.tick_len
        &&& self.tick_offset + self.tick_len <= self.radius
        &&& 0 <= self.hour_inset <= self.radius
        &&& 0 <= self.minute_inset <= self.radius
        &&& 0 <= self.second_inset <= self.radius
        &&& -1000000 <= self.center.x <= 1000000
        &&& -1000000 <= self.center.y <= 1000000
    }

    /// The layout of the deployed device: a 128x64 display with the face
    /// centered on its right half and the button panel in the upper left.
    pub fn standard() -> (layout: ClockLayout)
        ensures
            layout == standard_layout(),
            layout.wf(),
    {
        ClockLayout {
            center: Point { x: 64, y: 32 },
            radius: 31,
            tick_len: 4,
            tick_offset: 3,
            hour_inset: 15,
            minute_inset: 10,
            second_inset: 5,
            button_radius: 2,
            button_up: Point { x: 8, y: 2 },
            button_down: Point { x: 8, y: 14 },
            button_left: Point { x: 2, y: 8 },
            button_right: Point { x: 14, y: 8 },
            button_center: Point { x: 8, y: 8 },
        }
    }
}

/// The fixed layout of the deployed device, as a specification value.
pub open spec fn standard_layout() -> ClockLayout {
    ClockLayout {
        center: Point { x: 64, y: 32 },
        radius: 31,
        tick_len: 4,
        tick_offset: 3,
        hour_inset: 15,
        minute_inset: 10,
        second_inset: 5,
        button_radius: 2,
        button_up: Point { x: 8, y: 2 },
        button_down: Point { x: 8, y: 14 },
        button_left: Point { x: 2, y: 8 },
        button_right: Point { x: 14, y: 8 },
        button_center: Point { x: 8, y: 8 },
    }
}

} // verus!
