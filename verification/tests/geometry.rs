use clockface::buttons::ButtonState;
use clockface::geometry::{compute_button_indicators, compute_face, compute_hands};
use clockface::layout::ClockLayout;
use clockface::primitives::{Direction, DrawPrimitive, Fill, Point, UNIT_SCALE};

fn top() -> Direction {
    Direction { sin_q: 0, cos_q: UNIT_SCALE }
}

fn quarter() -> Direction {
    Direction { sin_q: UNIT_SCALE, cos_q: 0 }
}

fn half() -> Direction {
    Direction { sin_q: 0, cos_q: -UNIT_SCALE }
}

fn three_quarters() -> Direction {
    Direction { sin_q: -UNIT_SCALE, cos_q: 0 }
}

/// 13 tick directions with exact values on the four axes and a plausible
/// fixed-point vector elsewhere.
fn axis_tick_dirs() -> Vec<Direction> {
    let mut dirs = Vec::new();
    for h in 0..13u32 {
        let d = match h % 12 {
            0 => top(),
            3 => quarter(),
            6 => half(),
            9 => three_quarters(),
            // sin/cos of 30 degrees, scaled: 0.5 and 0.86602 of a unit.
            _ => Direction { sin_q: 16384, cos_q: 28377 },
        };
        dirs.push(d);
    }
    dirs
}

fn line(x0: i32, y0: i32, x1: i32, y1: i32) -> DrawPrimitive {
    DrawPrimitive::Line {
        start: Point { x: x0, y: y0 },
        end: Point { x: x1, y: y1 },
    }
}

#[test]
fn face_has_thirteen_ticks_and_bezel() {
    let layout = ClockLayout::standard();
    let prims = compute_face(&layout, &axis_tick_dirs());
    assert_eq!(prims.len(), 14);
    assert_eq!(
        prims[13],
        DrawPrimitive::Circle {
            center: Point { x: 64, y: 32 },
            radius: 31,
            fill: Fill::Unfilled,
        }
    );
}

#[test]
fn face_axis_ticks_exact() {
    let layout = ClockLayout::standard();
    let prims = compute_face(&layout, &axis_tick_dirs());
    // Outer radial distance 31 - 3 = 28, inner 28 - 4 = 24.
    assert_eq!(prims[0], line(64, 60, 64, 56));
    assert_eq!(prims[3], line(92, 32, 88, 32));
    assert_eq!(prims[6], line(64, 4, 64, 8));
    assert_eq!(prims[9], line(36, 32, 40, 32));
    // The thirteenth tick repeats the top of the face after a full turn.
    assert_eq!(prims[12], prims[0]);
}

#[test]
fn face_axis_tick_radial_distances_exact() {
    let layout = ClockLayout::standard();
    let prims = compute_face(&layout, &axis_tick_dirs());
    for h in [0usize, 3, 6, 9, 12] {
        match prims[h] {
            DrawPrimitive::Line { start, end } => {
                let (sx, sy) = ((start.x - 64) as i64, (start.y - 32) as i64);
                let (ex, ey) = ((end.x - 64) as i64, (end.y - 32) as i64);
                assert_eq!(sx * sx + sy * sy, 28 * 28);
                assert_eq!(ex * ex + ey * ey, 24 * 24);
            }
            _ => panic!("tick {h} is not a line"),
        }
    }
}

#[test]
fn face_thirty_degree_tick_truncates() {
    let layout = ClockLayout::standard();
    let prims = compute_face(&layout, &axis_tick_dirs());
    // 28 * 16384 / 32768 = 14; 28 * 28377 / 32768 = 24 (truncated);
    // 24 * 16384 / 32768 = 12; 24 * 28377 / 32768 = 20 (truncated).
    assert_eq!(prims[1], line(78, 56, 76, 52));
}

#[test]
fn hands_at_phase_zero_point_to_twelve() {
    let layout = ClockLayout::standard();
    let prims = compute_hands(&layout, top(), top(), top());
    assert_eq!(prims.len(), 3);
    // Hand lengths: 31 - 15 = 16, 31 - 10 = 21, 31 - 5 = 26.
    assert_eq!(prims[0], line(64, 32, 64, 48));
    assert_eq!(prims[1], line(64, 32, 64, 53));
    assert_eq!(prims[2], line(64, 32, 64, 58));
}

#[test]
fn hour_hand_at_quarter_day() {
    let layout = ClockLayout::standard();
    // At 21600 s the hour phase is a quarter turn: sin 1, cos 0.
    let prims = compute_hands(&layout, quarter(), top(), top());
    assert_eq!(prims[0], line(64, 32, 48, 32));
}

#[test]
fn second_hand_truncates_toward_zero() {
    let layout = ClockLayout::standard();
    // sin/cos of 45 degrees: 0.70709 of a unit, scaled to 23170.
    let diag = Direction { sin_q: 23170, cos_q: 23170 };
    let prims = compute_hands(&layout, top(), top(), diag);
    // 26 * 23170 / 32768 = 18 (truncated from 18.38).
    assert_eq!(prims[2], line(64, 32, 46, 50));
    // Mirrored diagonal: the scaled offsets truncate toward zero, not down.
    let diag_neg = Direction { sin_q: -23170, cos_q: -23170 };
    let prims_neg = compute_hands(&layout, top(), top(), diag_neg);
    assert_eq!(prims_neg[2], line(64, 32, 82, 14));
}

#[test]
fn indicators_all_released() {
    let layout = ClockLayout::standard();
    let snapshot = ButtonState {
        up: false,
        down: false,
        left: false,
        right: false,
        center: false,
    };
    let prims = compute_button_indicators(&layout, snapshot);
    assert_eq!(prims.len(), 5);
    let expected_centers = [(8, 2), (8, 14), (2, 8), (14, 8), (8, 8)];
    for (i, (cx, cy)) in expected_centers.iter().enumerate() {
        assert_eq!(
            prims[i],
            DrawPrimitive::Circle {
                center: Point { x: *cx, y: *cy },
                radius: 2,
                fill: Fill::Blank,
            }
        );
    }
}

#[test]
fn indicators_follow_snapshot_exactly() {
    let layout = ClockLayout::standard();
    let snapshot = ButtonState {
        up: true,
        down: false,
        left: true,
        right: false,
        center: true,
    };
    let prims = compute_button_indicators(&layout, snapshot);
    assert_eq!(prims.len(), 5);
    let expected_fill = [Fill::Solid, Fill::Blank, Fill::Solid, Fill::Blank, Fill::Solid];
    for (i, fill) in expected_fill.iter().enumerate() {
        match prims[i] {
            DrawPrimitive::Circle { fill: f, .. } => assert_eq!(f, *fill),
            _ => panic!("indicator {i} is not a circle"),
        }
    }
}

#[test]
fn geometry_is_deterministic() {
    let layout = ClockLayout::standard();
    let dirs = axis_tick_dirs();
    assert_eq!(compute_face(&layout, &dirs), compute_face(&layout, &dirs));
    let diag = Direction { sin_q: 23170, cos_q: 23170 };
    assert_eq!(
        compute_hands(&layout, quarter(), diag, top()),
        compute_hands(&layout, quarter(), diag, top())
    );
    let snapshot = ButtonState {
        up: true,
        down: true,
        left: false,
        right: false,
        center: false,
    };
    assert_eq!(
        compute_button_indicators(&layout, snapshot),
        compute_button_indicators(&layout, snapshot)
    );
}
