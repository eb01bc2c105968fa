use clockface::buttons::ButtonState;
use clockface::geometry::{compute_button_indicators, compute_face, compute_hands};
use clockface::layout::ClockLayout;
use clockface::primitives::{Direction, DrawPrimitive, UNIT_SCALE};
use clockface::queue::EventQueue;
use clockface::scheduler::{DisplayOp, Event, HandDirections, RenderScheduler};

fn top() -> Direction {
    Direction { sin_q: 0, cos_q: UNIT_SCALE }
}

fn quarter() -> Direction {
    Direction { sin_q: UNIT_SCALE, cos_q: 0 }
}

fn face_dirs() -> Vec<Direction> {
    let mut dirs = Vec::new();
    for _ in 0..13 {
        dirs.push(top());
    }
    dirs
}

fn scheduler() -> RenderScheduler {
    RenderScheduler::new(ClockLayout::standard(), face_dirs())
}

fn noon_hands() -> HandDirections {
    HandDirections { hour: quarter(), minute: top(), second: top() }
}

fn some_buttons() -> ButtonState {
    ButtonState { up: true, down: false, left: false, right: true, center: false }
}

/// Replays display operations over a frame modelled as the primitives
/// drawn since the last clear, in order.
fn replay(frame: &mut Vec<DrawPrimitive>, ops: &[DisplayOp]) {
    for op in ops {
        match op {
            DisplayOp::Clear => frame.clear(),
            DisplayOp::Draw(p) => frame.push(*p),
            DisplayOp::Flush => {}
        }
    }
}

#[test]
fn queue_is_first_in_first_out() {
    let mut queue = EventQueue::new(4);
    assert_eq!(queue.len(), 0);
    assert!(queue.offer(Event::TimeTick { hands: noon_hands() }));
    assert!(queue.offer(Event::PollTick { buttons: some_buttons() }));
    assert_eq!(queue.len(), 2);
    assert_eq!(queue.take_next(), Some(Event::TimeTick { hands: noon_hands() }));
    assert_eq!(queue.take_next(), Some(Event::PollTick { buttons: some_buttons() }));
    assert_eq!(queue.take_next(), None);
}

#[test]
fn queue_drops_events_beyond_its_bound() {
    let mut queue = EventQueue::new(2);
    assert!(queue.offer(Event::TimeTick { hands: noon_hands() }));
    assert!(queue.offer(Event::TimeTick { hands: noon_hands() }));
    assert!(!queue.offer(Event::PollTick { buttons: some_buttons() }));
    assert_eq!(queue.len(), 2);
    assert_eq!(queue.take_next(), Some(Event::TimeTick { hands: noon_hands() }));
    assert_eq!(queue.take_next(), Some(Event::TimeTick { hands: noon_hands() }));
    assert_eq!(queue.take_next(), None);
}

#[test]
fn new_scheduler_reports_all_buttons_released() {
    let sched = scheduler();
    let released = ButtonState { up: false, down: false, left: false, right: false, center: false };
    assert_eq!(sched.buttons, released);
}

#[test]
fn startup_renders_the_face() {
    let sched = scheduler();
    let ops = sched.startup_ops();
    let mut frame = Vec::new();
    replay(&mut frame, &ops);
    let face = compute_face(&ClockLayout::standard(), &face_dirs());
    assert_eq!(frame, face);
    assert_eq!(ops.last(), Some(&DisplayOp::Flush));
}

#[test]
fn time_tick_redraws_face_and_hands() {
    let mut sched = scheduler();
    let ops = sched.handle_event(&Event::TimeTick { hands: noon_hands() });
    // Clear, 14 face primitives, 3 hands, flush.
    assert_eq!(ops.len(), 19);
    assert_eq!(ops[0], DisplayOp::Clear);
    assert_eq!(ops.last(), Some(&DisplayOp::Flush));
    let mut frame = vec![compute_button_indicators(
        &ClockLayout::standard(),
        some_buttons(),
    )[0]];
    replay(&mut frame, &ops);
    let layout = ClockLayout::standard();
    let mut expected = compute_face(&layout, &face_dirs());
    expected.extend(compute_hands(&layout, quarter(), top(), top()));
    // The leading clear makes the result independent of the earlier frame.
    assert_eq!(frame, expected);
}

#[test]
fn poll_tick_overlays_indicators_and_retains_snapshot() {
    let mut sched = scheduler();
    let ops = sched.handle_event(&Event::PollTick { buttons: some_buttons() });
    assert_eq!(ops.len(), 6);
    assert_eq!(ops.last(), Some(&DisplayOp::Flush));
    assert_eq!(sched.buttons, some_buttons());
    let layout = ClockLayout::standard();
    let mut frame = compute_face(&layout, &face_dirs());
    let mut expected = frame.clone();
    replay(&mut frame, &ops);
    expected.extend(compute_button_indicators(&layout, some_buttons()));
    assert_eq!(frame, expected);
}

#[test]
fn draining_equals_handling_serially() {
    let events = [
        Event::TimeTick { hands: noon_hands() },
        Event::PollTick { buttons: some_buttons() },
        Event::TimeTick { hands: noon_hands() },
    ];
    let mut queue = EventQueue::new(8);
    for e in events {
        assert!(queue.offer(e));
    }
    let mut drained = scheduler();
    let ops = drained.drain_queue(&mut queue);
    assert_eq!(queue.len(), 0);

    let mut serial = scheduler();
    let mut serial_ops = Vec::new();
    for e in &events {
        serial_ops.extend(serial.handle_event(e));
    }
    assert_eq!(ops, serial_ops);
    assert_eq!(drained.buttons, serial.buttons);

    // The frame after the drain equals the frame of the serial order.
    let mut drained_frame = Vec::new();
    replay(&mut drained_frame, &ops);
    let mut serial_frame = Vec::new();
    replay(&mut serial_frame, &serial_ops);
    assert_eq!(drained_frame, serial_frame);

    // And both end on the last time tick's full redraw.
    let layout = ClockLayout::standard();
    let mut expected = compute_face(&layout, &face_dirs());
    expected.extend(compute_hands(&layout, quarter(), top(), top()));
    assert_eq!(drained_frame, expected);
}
