//! Drawable primitives and the fixed-point projection they are built from.
//!
//! Verus has no floating point, so directions are carried as fixed-point
//! unit vectors: a pair of sine/cosine samples scaled by [`UNIT_SCALE`].
//! The platform layer produces them from a phase; everything that follows
//! (scaling a direction to a length, offsetting from a center point) is
//! verified integer arithmetic.

use vstd::prelude::*;

verus! {

/// Fixed-point scale of a unit vector component: a component of `UNIT_SCALE`
/// stands for 1.0, of `-UNIT_SCALE` for -1.0.
pub const UNIT_SCALE: i32 = 32768;

/// A pixel position on the display, signed so that intermediate geometry may
/// leave the visible area.
#[derive(Clone, Copy, Debug, PartialEq, Eq, Structural)]
pub struct Point {
    pub x: i32,
    pub y: i32,
}

/// How a circle's interior is painted on the monochrome display.
#[derive(Clone, Copy, Debug, PartialEq, Eq, Structural)]
pub enum Fill {
    /// Interior left untouched; only the outline is drawn.
    Unfilled,
    /// Interior painted in the background color.
    Blank,
    /// Interior painted in the foreground color.
    Solid,
}

/// A drawable shape.  Every primitive is stroked in the single foreground
/// color of the display.
#[derive(Clone, Copy, Debug, PartialEq, Eq, Structural)]
pub enum DrawPrimitive {
    Line { start: Point, end: Point },
    Circle { center: Point, radius: u32, fill: Fill },
}

/// A direction as a fixed-point unit vector: sine and cosine of a phase,
/// both scaled by [`UNIT_SCALE`].
#[derive(Clone, Copy, Debug, PartialEq, Eq, Structural)]
pub struct Direction {
    pub sin_q: i32,
    pub cos_q: i32,
}

impl Direction {
    /// Both components lie within one fixed-point unit.
    pub open spec fn valid(self) -> bool {
        -UNIT_SCALE <= self.sin_q <= UNIT_SCALE && -UNIT_SCALE <= self.cos_q <= UNIT_SCALE
    }
}

/// `len` scaled by the fixed-point factor `q`, with the quotient truncated
/// toward zero, as the device's float-to-integer conversion truncates.
pub open spec fn scale_fp(len: int, q: int) -> int {
    if q >= 0 {
        (len * q) / (UNIT_SCALE as int)
    } else {
        -((len * (-q)) / (UNIT_SCALE as int))
    }
}

/// Largest length the projection accepts; keeps every product inside `u32`.
pub const MAX_SCALED_LEN: i32 = 4096;

/// Scale a nonnegative length by a fixed-point unit-vector component.
pub fn scaled(len: i32, q: i32) -> (r: i32)
    requires
        0 <= len <= MAX_SCALED_LEN,
        -UNIT_SCALE <= q <= UNIT_SCALE,
    ensures
        r == scale_fp(len as int, q as int),
        -len <= r <= len,
{
    let qa: u32 = if q >= 0 {
        q as u32
    } else {
        (-q) as u32
    };
    proof {
        assert((len as int) * (qa as int) <= (MAX_SCALED_LEN as int) * (UNIT_SCALE as int))
            by (nonlinear_arith)
            requires
                0 <= len <= MAX_SCALED_LEN,
                qa <= UNIT_SCALE,
        ;
    }
    let mag: u32 = ((len as u32) * qa) / (UNIT_SCALE as u32);
    proof {
        assert((len as int) * (qa as int) <= (len as int) * (UNIT_SCALE as int))
            by (nonlinear_arith)
            requires
                0 <= len,
                qa <= UNIT_SCALE,
        ;
        assert(((len as int) * (qa as int)) / (UNIT_SCALE as int) <= len) by (nonlinear_arith)
            requires
                0 <= len,
                (len as int) * (qa as int) <= (len as int) * (UNIT_SCALE as int),
        ;
    }
    if q >= 0 {
        mag as i32
    } else {
        -(mag as i32)
    }
}

} // verus!
