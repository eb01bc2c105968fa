//! The geometry engine: pure, total functions from layout, directions and a
//! button snapshot to drawable primitives.
//!
//! Orientation convention of the face: phase zero points to the twelve
//! o'clock tick and phase grows clockwise, so a point at radial distance `d`
//! from the center lies at `center + d * (sin, cos)`.  The hands use the
//! mirrored horizontal `center + (-len * sin, +len * cos)`, exactly as the
//! deployed device draws them; both conventions are kept as they are.

use vstd::prelude::*;
use vstd::arithmetic::div_mod::lemma_div_multiples_vanish;
use crate::buttons::ButtonState;
use crate::layout::{ClockLayout, TICK_COUNT};
use crate::primitives::{scale_fp, scaled, Direction, DrawPrimitive, Fill, Point};

verus! {

/// The point at radial distance `dist` from `center` in direction `d`,
/// under the face convention (`x` grows with the sine).
pub open spec fn radial_point(center: Point, dist: int, d: Direction) -> Point {
    Point {
        x: (center.x + scale_fp(dist, d.sin_q as int)) as i32,
        y: (center.y + scale_fp(dist, d.cos_q as int)) as i32,
    }
}

/// The free end of a hand of length `len` from `center` in direction `d`,
/// under the hand convention (`x` shrinks with the sine).
pub open spec fn hand_tip(center: Point, len: int, d: Direction) -> Point {
    Point {
        x: (center.x - scale_fp(len, d.sin_q as int)) as i32,
        y: (center.y + scale_fp(len, d.cos_q as int)) as i32,
    }
}

/// The hour tick in direction `d`: a line between radial distances
/// `radius - tick_offset` and `radius - tick_offset - tick_len`.
pub open spec fn tick_line(layout: ClockLayout, d: Direction) -> DrawPrimitive {
    DrawPrimitive::Line {
        start: radial_point(layout.center, layout.radius - layout.tick_offset, d),
        end: radial_point(
            layout.center,
            layout.radius - layout.tick_offset - layout.tick_len,
            d,
        ),
    }
}

/// The bezel: the unfilled outer circle that closes the face.
pub open spec fn bezel(layout: ClockLayout) -> DrawPrimitive {
    DrawPrimitive::Circle {
        center: layout.center,
        radius: layout.radius as u32,
        fill: Fill::Unfilled,
    }
}

/// The face: one tick per given direction, then the bezel.
pub open spec fn face(layout: ClockLayout, tick_dirs: Seq<Direction>) -> Seq<DrawPrimitive> {
    Seq::new(tick_dirs.len(), |i: int| tick_line(layout, tick_dirs[i])).push(bezel(layout))
}

/// A hand with the given inset: a line from the center to the tip at
/// distance `radius - inset`.
pub open spec fn hand_line(layout: ClockLayout, inset: int, d: Direction) -> DrawPrimitive {
    DrawPrimitive::Line {
        start: layout.center,
        end: hand_tip(layout.center, layout.radius - inset, d),
    }
}

/// The three hands, hour then minute then second.
pub open spec fn hands(
    layout: ClockLayout,
    hour: Direction,
    minute: Direction,
    second: Direction,
) -> Seq<DrawPrimitive> {
    seq![
        hand_line(layout, layout.hour_inset as int, hour),
        hand_line(layout, layout.minute_inset as int, minute),
        hand_line(layout, layout.second_inset as int, second),
    ]
}

/// One button indicator: a circle whose interior is painted in the
/// foreground color exactly when the button is pressed, and cleared to the
/// background color otherwise.
pub open spec fn indicator(center: Point, radius: u32, is_pressed: bool) -> DrawPrimitive {
    DrawPrimitive::Circle {
        center,
        radius,
        fill: if is_pressed {
            Fill::Solid
        } else {
            Fill::Blank
        },
    }
}

/// The five button indicators, in the fixed order up, down, left, right,
/// center.
pub open spec fn indicators(layout: ClockLayout, snapshot: ButtonState) -> Seq<DrawPrimitive> {
    seq![
        indicator(layout.button_up, layout.button_radius, snapshot.up),
        indicator(layout.button_down, layout.button_radius, snapshot.down),
        indicator(layout.button_left, layout.button_radius, snapshot.left),
        indicator(layout.button_right, layout.button_radius, snapshot.right),
        indicator(layout.button_center, layout.button_radius, snapshot.center),
    ]
}

/// Compute the point at radial distance `dist` from `center` in direction
/// `d`, under the face convention.
fn radial_point_at(center: Point, dist: i32, d: Direction) -> (p: Point)
    requires
        0 <= dist <= crate::primitives::MAX_SCALED_LEN,
        d.valid(),
        -1000000 <= center.x <= 1000000,
        -1000000 <= center.y <= 1000000,
    ensures
        p == radial_point(center, dist as int, d),
{
    let dx = scaled(dist, d.sin_q);
    let dy = scaled(dist, d.cos_q);
    Point { x: center.x + dx, y: center.y + dy }
}

/// Compute the tip of a hand of length `len` from `center` in direction
/// `d`, under the hand convention.
fn hand_tip_at(center: Point, len: i32, d: Direction) -> (p: Point)
    requires
        0 <= len <= crate::primitives::MAX_SCALED_LEN,
        d.valid(),
        -1000000 <= center.x <= 1000000,
        -1000000 <= center.y <= 1000000,
    ensures
        p == hand_tip(center, len as int, d),
{
    let dx = scaled(len, d.sin_q);
    let dy = scaled(len, d.cos_q);
    Point { x: center.x - dx, y: center.y + dy }
}

/// Compute the clock face: one tick per direction in `tick_dirs` (the
/// dial's thirteen hour positions on the device), closed by the bezel.
pub fn compute_face(layout: &ClockLayout, tick_dirs: &Vec<Direction>) -> (prims: Vec<
    DrawPrimitive,
>)
    requires
        layout.wf(),
        tick_dirs@.len() == TICK_COUNT,
        forall|i: int| 0 <= i < tick_dirs@.len() ==> tick_dirs@[i].valid(),
    ensures
        prims@ == face(*layout, tick_dirs@),
{
    let mut prims: Vec<DrawPrimitive> = Vec::new();
    let outer = layout.radius - layout.tick_offset;
    let inner = layout.radius - layout.tick_offset - layout.tick_len;
    for i in 0..tick_dirs.len()
        invariant
            layout.wf(),
            outer == layout.radius - layout.tick_offset,
            inner == layout.radius - layout.tick_offset - layout.tick_len,
            tick_dirs@.len() == TICK_COUNT,
            forall|j: int| 0 <= j < tick_dirs@.len() ==> tick_dirs@[j].valid(),
            prims@.len() == i,
            forall|j: int| 0 <= j < i ==> prims@[j] == tick_line(*layout, tick_dirs@[j]),
    {
        let d = tick_dirs[i];
        let start = radial_point_at(layout.center, outer, d);
        let end = radial_point_at(layout.center, inner, d);
        prims.push(DrawPrimitive::Line { start, end });
    }
    prims.push(
        DrawPrimitive::Circle {
            center: layout.center,
            radius: layout.radius as u32,
            fill: Fill::Unfilled,
        },
    );
    proof {
        assert(prims@ =~= face(*layout, tick_dirs@));
    }
    prims
}

/// Compute the three hands from their directions: lines from the center to
/// tips at lengths `radius` minus the hour, minute and second insets.
pub fn compute_hands(
    layout: &ClockLayout,
    hour: Direction,
    minute: Direction,
    second: Direction,
) -> (prims: Vec<DrawPrimitive>)
    requires
        layout.wf(),
        hour.valid(),
        minute.valid(),
        second.valid(),
    ensures
        prims@ == hands(*layout, hour, minute, second),
{
    let mut prims: Vec<DrawPrimitive> = Vec::new();
    let hour_tip = hand_tip_at(layout.center, layout.radius - layout.hour_inset, hour);
    prims.push(DrawPrimitive::Line { start: layout.center, end: hour_tip });
    let minute_tip = hand_tip_at(layout.center, layout.radius - layout.minute_inset, minute);
    prims.push(DrawPrimitive::Line { start: layout.center, end: minute_tip });
    let second_tip = hand_tip_at(layout.center, layout.radius - layout.second_inset, second);
    prims.push(DrawPrimitive::Line { start: layout.center, end: second_tip });
    proof {
        assert(prims@ =~= hands(*layout, hour, minute, second));
    }
    prims
}

/// Compute the five button indicators for a snapshot.  Always exactly five
/// circles at the layout's fixed positions; each is solid exactly when its
/// button is pressed.
pub fn compute_button_indicators(layout: &ClockLayout, snapshot: ButtonState) -> (prims: Vec<
    DrawPrimitive,
>)
    ensures
        prims@ == indicators(*layout, snapshot),
        prims@.len() == 5,
{
    let mut prims: Vec<DrawPrimitive> = Vec::new();
    prims.push(indicator_at(layout.button_up, layout.button_radius, snapshot.up));
    prims.push(indicator_at(layout.button_down, layout.button_radius, snapshot.down));
    prims.push(indicator_at(layout.button_left, layout.button_radius, snapshot.left));
    prims.push(indicator_at(layout.button_right, layout.button_radius, snapshot.right));
    prims.push(indicator_at(layout.button_center, layout.button_radius, snapshot.center));
    proof {
        assert(prims@ =~= indicators(*layout, snapshot));
    }
    prims
}

/// Compute one button indicator circle.
fn indicator_at(center: Point, radius: u32, is_pressed: bool) -> (p: DrawPrimitive)
    ensures
        p == indicator(center, radius, is_pressed),
{
    DrawPrimitive::Circle {
        center,
        radius,
        fill: if is_pressed {
            Fill::Solid
        } else {
            Fill::Blank
        },
    }
}

/// The direction of phase zero: straight toward the twelve o'clock tick.
pub open spec fn phase_zero_direction() -> Direction {
    Direction { sin_q: 0, cos_q: crate::primitives::UNIT_SCALE }
}

/// The direction a quarter turn clockwise from phase zero.
pub open spec fn quarter_turn_direction() -> Direction {
    Direction { sin_q: crate::primitives::UNIT_SCALE, cos_q: 0 }
}

/// Scaling by a whole fixed-point unit is exact: a component of
/// `UNIT_SCALE` keeps the length, a component of zero drops it.
proof fn lemma_scale_fp_unit(len: int)
    requires
        0 <= len,
    ensures
        scale_fp(len, crate::primitives::UNIT_SCALE as int) == len,
        scale_fp(len, 0) == 0,
{
    let unit = crate::primitives::UNIT_SCALE as int;
    lemma_div_multiples_vanish(len, unit);
    assert(len * unit == unit * len);
}

/// Every tick of the face runs between radial parameters
/// `radius - tick_offset` and `radius - tick_offset - tick_len` along its
/// own direction, and the face is closed by the bezel.
pub proof fn lemma_face_tick_radii(layout: ClockLayout, tick_dirs: Seq<Direction>, h: int)
    requires
        0 <= h < tick_dirs.len(),
    ensures
        face(layout, tick_dirs).len() == tick_dirs.len() + 1,
        face(layout, tick_dirs)[h] == (DrawPrimitive::Line {
            start: radial_point(layout.center, layout.radius - layout.tick_offset, tick_dirs[h]),
            end: radial_point(
                layout.center,
                layout.radius - layout.tick_offset - layout.tick_len,
                tick_dirs[h],
            ),
        }),
        face(layout, tick_dirs)[tick_dirs.len() as int] == bezel(layout),
{
}

/// At phase zero all three hands point to twelve o'clock: each tip sits
/// exactly its hand's length from the center along the face's vertical
/// axis, in display coordinates.
pub proof fn lemma_hands_at_phase_zero(layout: ClockLayout)
    requires
        layout.wf(),
    ensures
        hands(layout, phase_zero_direction(), phase_zero_direction(), phase_zero_direction())
            == seq![
            (DrawPrimitive::Line {
                start: layout.center,
                end: Point {
                    x: layout.center.x,
                    y: (layout.center.y + (layout.radius - layout.hour_inset)) as i32,
                },
            }),
            (DrawPrimitive::Line {
                start: layout.center,
                end: Point {
                    x: layout.center.x,
                    y: (layout.center.y + (layout.radius - layout.minute_inset)) as i32,
                },
            }),
            (DrawPrimitive::Line {
                start: layout.center,
                end: Point {
                    x: layout.center.x,
                    y: (layout.center.y + (layout.radius - layout.second_inset)) as i32,
                },
            }),
        ],
{
    lemma_scale_fp_unit(layout.radius - layout.hour_inset);
    lemma_scale_fp_unit(layout.radius - layout.minute_inset);
    lemma_scale_fp_unit(layout.radius - layout.second_inset);
    assert(hands(
        layout,
        phase_zero_direction(),
        phase_zero_direction(),
        phase_zero_direction(),
    ) =~= seq![
        (DrawPrimitive::Line {
            start: layout.center,
            end: Point {
                x: layout.center.x,
                y: (layout.center.y + (layout.radius - layout.hour_inset)) as i32,
            },
        }),
        (DrawPrimitive::Line {
            start: layout.center,
            end: Point {
                x: layout.center.x,
                y: (layout.center.y + (layout.radius - layout.minute_inset)) as i32,
            },
        }),
        (DrawPrimitive::Line {
            start: layout.center,
            end: Point {
                x: layout.center.x,
                y: (layout.center.y + (layout.radius - layout.second_inset)) as i32,
            },
        }),
    ]);
}

/// A quarter turn after phase zero the hour hand lies horizontal, its tip
/// exactly its length to the left of the center: the hands' mirrored
/// horizontal convention.
pub proof fn lemma_hour_hand_at_quarter_turn(layout: ClockLayout)
    requires
        layout.wf(),
    ensures
        hand_line(layout, layout.hour_inset as int, quarter_turn_direction())
            == (DrawPrimitive::Line {
            start: layout.center,
            end: Point {
                x: (layout.center.x - (layout.radius - layout.hour_inset)) as i32,
                y: layout.center.y,
            },
        }),
{
    lemma_scale_fp_unit(layout.radius - layout.hour_inset);
}

/// Determinism of the face: the contract of [`compute_face`] pins its result
/// to [`face`], so two calls with identical inputs return identical
/// primitive sequences.
pub proof fn lemma_face_deterministic(
    layout: ClockLayout,
    tick_dirs: Seq<Direction>,
    first: Seq<DrawPrimitive>,
    second: Seq<DrawPrimitive>,
)
    requires
        first == face(layout, tick_dirs),
        second == face(layout, tick_dirs),
    ensures
        first == second,
{
}

/// Determinism of the hands: the contract of [`compute_hands`] pins its
/// result to [`hands`], so two calls with identical inputs return identical
/// primitive sequences.
pub proof fn lemma_hands_deterministic(
    layout: ClockLayout,
    hour: Direction,
    minute: Direction,
    second: Direction,
    first: Seq<DrawPrimitive>,
    repeat: Seq<DrawPrimitive>,
)
    requires
        first == hands(layout, hour, minute, second),
        repeat == hands(layout, hour, minute, second),
    ensures
        first == repeat,
{
}

/// Determinism of the indicators: the contract of
/// [`compute_button_indicators`] pins its result to [`indicators`], so two
/// calls with identical inputs return identical primitive sequences.
pub proof fn lemma_indicators_deterministic(
    layout: ClockLayout,
    snapshot: ButtonState,
    first: Seq<DrawPrimitive>,
    second: Seq<DrawPrimitive>,
)
    requires
        first == indicators(layout, snapshot),
        second == indicators(layout, snapshot),
    ensures
        first == second,
{
}

} // verus!
