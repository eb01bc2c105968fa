//! The render scheduler: turns hardware events into display operations.
//!
//! The two hardware event sources (the once-per-second time tick and the
//! faster button poll tick) no longer race for the display.  Each firing is
//! translated into an [`Event`]; a single consumer drains the events in
//! arrival order and emits, for each, the [`DisplayOp`] sequence of a full
//! redraw.  The frame model below folds those operations over the display
//! contents, and the lemmas show that draining a queue of events leaves the
//! frame exactly as applying the events one at a time in arrival order
//! would: no interleaving of firings can tear a frame.

use vstd::prelude::*;
use crate::buttons::ButtonState;
use crate::geometry::{
    compute_button_indicators, compute_face, compute_hands, face, hands, indicators,
};
use crate::layout::{ClockLayout, TICK_COUNT};
use crate::primitives::{Direction, DrawPrimitive};
use crate::queue::EventQueue;

verus! {

/// The directions of the three hands at one instant, already resolved from
/// their phases into fixed-point unit vectors by the platform layer.
#[derive(Clone, Copy, Debug, PartialEq, Eq, Structural)]
pub struct HandDirections {
    pub hour: Direction,
    pub minute: Direction,
    pub second: Direction,
}

impl HandDirections {
    /// All three directions are valid unit vectors.
    pub open spec fn valid(self) -> bool {
        self.hour.valid() && self.minute.valid() && self.second.valid()
    }
}

/// One hardware firing, translated into a message for the render consumer.
#[derive(Clone, Copy, Debug, PartialEq, Eq, Structural)]
pub enum Event {
    /// The time source delivered a new second; the hands point as given.
    TimeTick { hands: HandDirections },
    /// The poll timer fired; the buttons were sampled as given.
    PollTick { buttons: ButtonState },
}

impl Event {
    /// Directions carried by a time tick are valid unit vectors.
    pub open spec fn wf(self) -> bool {
        match self {
            Event::TimeTick { hands } => hands.valid(),
            Event::PollTick { buttons } => true,
        }
    }
}

/// One operation for the display sink, to be executed in order.
#[derive(Clone, Copy, Debug, PartialEq, Eq, Structural)]
pub enum DisplayOp {
    /// Erase the whole frame.
    Clear,
    /// Draw one primitive into the frame.
    Draw(DrawPrimitive),
    /// Transfer the frame to the physical display; blocks until done.
    Flush,
}

/// One draw operation per primitive, in order.
pub open spec fn draw_ops(prims: Seq<DrawPrimitive>) -> Seq<DisplayOp> {
    prims.map(|i: int, p: DrawPrimitive| DisplayOp::Draw(p))
}

/// The operations of a time-tick redraw: clear, the whole face, the three
/// hands, then a flush.
pub open spec fn time_tick_ops(
    layout: ClockLayout,
    face_dirs: Seq<Direction>,
    hand_dirs: HandDirections,
) -> Seq<DisplayOp> {
    seq![DisplayOp::Clear] + draw_ops(face(layout, face_dirs)) + draw_ops(
        hands(layout, hand_dirs.hour, hand_dirs.minute, hand_dirs.second),
    ) + seq![DisplayOp::Flush]
}

/// The operations of a poll-tick redraw: the five indicators over the
/// current frame, then a flush.
pub open spec fn poll_tick_ops(layout: ClockLayout, buttons: ButtonState) -> Seq<DisplayOp> {
    draw_ops(indicators(layout, buttons)) + seq![DisplayOp::Flush]
}

/// The single owner of the render state: the layout, the fixed tick
/// directions of the face, and the last sampled button snapshot.
#[derive(Clone, Debug)]
pub struct RenderScheduler {
    /// The fixed placement constants.
    pub layout: ClockLayout,
    /// The dial's thirteen tick directions, resolved once at startup.
    pub face_dirs: Vec<Direction>,
    /// The most recent button snapshot; replaced wholesale on each poll.
    pub buttons: ButtonState,
}

impl RenderScheduler {
    /// Well-formedness: the layout is sound and the face has one valid
    /// direction per tick.
    pub open spec fn wf(self) -> bool {
        &&& self.layout.wf()
        &&& self.face_dirs@.len() == TICK_COUNT as int
        &&& forall|i: int| 0 <= i < self.face_dirs@.len() ==> self.face_dirs@[i].valid()
    }

    /// Build the scheduler.  The initial snapshot reports every button
    /// released, as the device assumes until the first poll.
    pub fn new(layout: ClockLayout, face_dirs: Vec<Direction>) -> (s: RenderScheduler)
        requires
            layout.wf(),
            face_dirs@.len() == TICK_COUNT as int,
            forall|i: int| 0 <= i < face_dirs@.len() ==> face_dirs@[i].valid(),
        ensures
            s.wf(),
            s.layout == layout,
            s.face_dirs == face_dirs,
            s.buttons == ButtonState::released(),
    {
        RenderScheduler {
            layout,
            face_dirs,
            buttons: ButtonState {
                up: false,
                down: false,
                left: false,
                right: false,
                center: false,
            },
        }
    }

    /// The operations of the one-time startup render: the face is drawn
    /// onto the blank frame and flushed before any event source is armed.
    pub fn startup_ops(&self) -> (ops: Vec<DisplayOp>)
        requires
            self.wf(),
        ensures
            ops@ == startup_ops_at(*self),
    {
        let mut ops: Vec<DisplayOp> = Vec::new();
        let face_prims = compute_face(&self.layout, &self.face_dirs);
        push_draws(&mut ops, &face_prims);
        ops.push(DisplayOp::Flush);
        proof {
            assert(ops@ =~= startup_ops_at(*self));
        }
        ops
    }

    /// Handle one event: emit the display operations of its full redraw and
    /// retain a poll tick's snapshot.  The caller executes the operations
    /// on the display sink in order before handling the next event.
    pub fn handle_event(&mut self, event: &Event) -> (ops: Vec<DisplayOp>)
        requires
            old(self).wf(),
            event.wf(),
        ensures
            final(self).wf(),
            *final(self) == post_state(*old(self), *event),
            ops@ == event_ops(*old(self), *event),
    {
        match event {
            Event::TimeTick { hands: hand_dirs } => {
                let mut ops: Vec<DisplayOp> = Vec::new();
                ops.push(DisplayOp::Clear);
                let face_prims = compute_face(&self.layout, &self.face_dirs);
                push_draws(&mut ops, &face_prims);
                let hand_prims = compute_hands(
                    &self.layout,
                    hand_dirs.hour,
                    hand_dirs.minute,
                    hand_dirs.second,
                );
                push_draws(&mut ops, &hand_prims);
                ops.push(DisplayOp::Flush);
                proof {
                    assert(ops@ =~= event_ops(*old(self), *event));
                }
                ops
            },
            Event::PollTick { buttons } => {
                self.buttons = *buttons;
                let indicator_prims = compute_button_indicators(&self.layout, self.buttons);
                let mut ops: Vec<DisplayOp> = Vec::new();
                push_draws(&mut ops, &indicator_prims);
                ops.push(DisplayOp::Flush);
                proof {
                    assert(ops@ =~= event_ops(*old(self), *event));
                }
                ops
            },
        }
    }

    /// Drain the queue: handle every queued event in arrival order and
    /// return the concatenation of their display operations.
    pub fn drain_queue(&mut self, queue: &mut EventQueue) -> (ops: Vec<DisplayOp>)
        requires
            old(self).wf(),
            old(queue).wf(),
        ensures
            final(self).wf(),
            final(queue).wf(),
            final(queue).cap() == old(queue).cap(),
            final(queue).events() == Seq::<Event>::empty(),
            ops@ == run_ops(*old(self), old(queue).events()),
            *final(self) == run_state(*old(self), old(queue).events()),
    {
        let ghost initial_state = *old(self);
        let ghost arrivals = old(queue).events();
        let mut ops: Vec<DisplayOp> = Vec::new();
        proof {
            assert(ops@ + run_ops(initial_state, arrivals) =~= run_ops(initial_state, arrivals));
        }
        loop
            invariant
                self.wf(),
                queue.wf(),
                queue.cap() == old(queue).cap(),
                run_ops(initial_state, arrivals) == ops@ + run_ops(*self, queue.events()),
                run_state(initial_state, arrivals) == run_state(*self, queue.events()),
            ensures
                queue.events().len() == 0,
            decreases queue.events().len(),
        {
            let ghost state_before = *self;
            let ghost pending = queue.events();
            match queue.take_next() {
                Option::None => {
                    break ;
                },
                Option::Some(event) => {
                    let mut event_op_list = self.handle_event(&event);
                    proof {
                        assert(run_ops(state_before, pending) == event_ops(state_before, event)
                            + run_ops(*self, queue.events()));
                        assert(run_state(state_before, pending) == run_state(
                            *self,
                            queue.events(),
                        ));
                        assert(ops@ + (event_op_list@ + run_ops(*self, queue.events())) =~= (ops@
                            + event_op_list@) + run_ops(*self, queue.events()));
                    }
                    ops.append(&mut event_op_list);
                },
            }
        }
        proof {
            assert(run_ops(*self, queue.events()) =~= Seq::<DisplayOp>::empty());
            assert(ops@ + Seq::<DisplayOp>::empty() =~= ops@);
        }
        ops
    }
}

/// The operations of the startup render, as a specification value.
pub open spec fn startup_ops_at(s: RenderScheduler) -> Seq<DisplayOp> {
    draw_ops(face(s.layout, s.face_dirs@)) + seq![DisplayOp::Flush]
}

/// The display operations one event produces in state `s`.
pub open spec fn event_ops(s: RenderScheduler, e: Event) -> Seq<DisplayOp> {
    match e {
        Event::TimeTick { hands } => time_tick_ops(s.layout, s.face_dirs@, hands),
        Event::PollTick { buttons } => poll_tick_ops(s.layout, buttons),
    }
}

/// The scheduler state after one event: a poll tick replaces the retained
/// snapshot, a time tick changes nothing.
pub open spec fn post_state(s: RenderScheduler, e: Event) -> RenderScheduler {
    match e {
        Event::TimeTick { hands } => s,
        Event::PollTick { buttons } => RenderScheduler {
            layout: s.layout,
            face_dirs: s.face_dirs,
            buttons,
        },
    }
}

/// The concatenated display operations of handling `events` in order,
/// starting from state `s`.
pub open spec fn run_ops(s: RenderScheduler, events: Seq<Event>) -> Seq<DisplayOp>
    decreases events.len(),
{
    if events.len() == 0 {
        Seq::<DisplayOp>::empty()
    } else {
        event_ops(s, events[0]) + run_ops(post_state(s, events[0]), events.skip(1))
    }
}

/// The scheduler state after handling `events` in order from state `s`.
pub open spec fn run_state(s: RenderScheduler, events: Seq<Event>) -> RenderScheduler
    decreases events.len(),
{
    if events.len() == 0 {
        s
    } else {
        run_state(post_state(s, events[0]), events.skip(1))
    }
}

/// The frame contents after one display operation: what has been drawn
/// since the last clear, in order.  A flush transfers the frame and leaves
/// its contents unchanged.
pub open spec fn frame_after_op(
    frame: Seq<DrawPrimitive>,
    op: DisplayOp,
) -> Seq<DrawPrimitive> {
    match op {
        DisplayOp::Clear => Seq::<DrawPrimitive>::empty(),
        DisplayOp::Draw(p) => frame.push(p),
        DisplayOp::Flush => frame,
    }
}

/// The frame contents after a sequence of display operations.
pub open spec fn frame_after_ops(
    frame: Seq<DrawPrimitive>,
    ops: Seq<DisplayOp>,
) -> Seq<DrawPrimitive>
    decreases ops.len(),
{
    if ops.len() == 0 {
        frame
    } else {
        frame_after_ops(frame_after_op(frame, ops[0]), ops.skip(1))
    }
}

/// The frame contents after handling `events` one at a time from state `s`:
/// each event's operations are folded over the frame before the next event
/// is handled.
pub open spec fn serial_frame(
    frame: Seq<DrawPrimitive>,
    s: RenderScheduler,
    events: Seq<Event>,
) -> Seq<DrawPrimitive>
    decreases events.len(),
{
    if events.len() == 0 {
        frame
    } else {
        serial_frame(
            frame_after_ops(frame, event_ops(s, events[0])),
            post_state(s, events[0]),
            events.skip(1),
        )
    }
}

/// Folding a single operation is one application of [`frame_after_op`].
proof fn lemma_frame_after_ops_single(frame: Seq<DrawPrimitive>, op: DisplayOp)
    ensures
        frame_after_ops(frame, seq![op]) == frame_after_op(frame, op),
{
    let s = seq![op];
    assert(s[0] == op);
    assert(s.skip(1).len() == 0);
    assert(frame_after_ops(frame_after_op(frame, op), s.skip(1)) == frame_after_op(frame, op));
}

/// Folding operations distributes over concatenation.
pub proof fn lemma_frame_after_ops_append(
    frame: Seq<DrawPrimitive>,
    a: Seq<DisplayOp>,
    b: Seq<DisplayOp>,
)
    ensures
        frame_after_ops(frame, a + b) == frame_after_ops(frame_after_ops(frame, a), b),
    decreases a.len(),
{
    if a.len() == 0 {
        assert(a + b =~= b);
    } else {
        assert((a + b)[0] == a[0]);
        assert((a + b).skip(1) =~= a.skip(1) + b);
        lemma_frame_after_ops_append(frame_after_op(frame, a[0]), a.skip(1), b);
    }
}

/// Drawing a primitive sequence appends it to the frame.
pub proof fn lemma_frame_after_draws(frame: Seq<DrawPrimitive>, prims: Seq<DrawPrimitive>)
    ensures
        frame_after_ops(frame, draw_ops(prims)) == frame + prims,
    decreases prims.len(),
{
    if prims.len() == 0 {
        assert(frame + prims =~= frame);
    } else {
        assert(draw_ops(prims)[0] == DisplayOp::Draw(prims[0]));
        assert(draw_ops(prims).skip(1) =~= draw_ops(prims.skip(1)));
        lemma_frame_after_draws(frame.push(prims[0]), prims.skip(1));
        assert(frame.push(prims[0]) + prims.skip(1) =~= frame + prims);
    }
}

/// A time-tick redraw leaves the frame holding exactly the face and the
/// hands, whatever the frame held before: the clear at its head makes the
/// result independent of any earlier, possibly interrupted, drawing.
pub proof fn lemma_time_tick_frame(
    frame: Seq<DrawPrimitive>,
    layout: ClockLayout,
    face_dirs: Seq<Direction>,
    hand_dirs: HandDirections,
)
    ensures
        frame_after_ops(frame, time_tick_ops(layout, face_dirs, hand_dirs)) == face(
            layout,
            face_dirs,
        ) + hands(layout, hand_dirs.hour, hand_dirs.minute, hand_dirs.second),
{
    let clear = seq![DisplayOp::Clear];
    let face_draws = draw_ops(face(layout, face_dirs));
    let hand_draws = draw_ops(hands(layout, hand_dirs.hour, hand_dirs.minute, hand_dirs.second));
    let flush = seq![DisplayOp::Flush];
    lemma_frame_after_ops_append(frame, clear + face_draws + hand_draws, flush);
    lemma_frame_after_ops_append(frame, clear + face_draws, hand_draws);
    lemma_frame_after_ops_append(frame, clear, face_draws);
    lemma_frame_after_ops_single(frame, DisplayOp::Clear);
    assert(frame_after_ops(frame, clear) =~= Seq::<DrawPrimitive>::empty());
    lemma_frame_after_ops_single(
        face(layout, face_dirs) + hands(layout, hand_dirs.hour, hand_dirs.minute, hand_dirs.second),
        DisplayOp::Flush,
    );
    lemma_frame_after_draws(Seq::<DrawPrimitive>::empty(), face(layout, face_dirs));
    assert(Seq::<DrawPrimitive>::empty() + face(layout, face_dirs) =~= face(layout, face_dirs));
    lemma_frame_after_draws(
        face(layout, face_dirs),
        hands(layout, hand_dirs.hour, hand_dirs.minute, hand_dirs.second),
    );
}

/// A poll-tick redraw appends exactly the five indicators to the frame.
pub proof fn lemma_poll_tick_frame(
    frame: Seq<DrawPrimitive>,
    layout: ClockLayout,
    buttons: ButtonState,
)
    ensures
        frame_after_ops(frame, poll_tick_ops(layout, buttons)) == frame + indicators(
            layout,
            buttons,
        ),
{
    lemma_frame_after_ops_append(frame, draw_ops(indicators(layout, buttons)), seq![
        DisplayOp::Flush,
    ]);
    lemma_frame_after_draws(frame, indicators(layout, buttons));
    lemma_frame_after_ops_single(frame + indicators(layout, buttons), DisplayOp::Flush);
}

/// The startup render puts exactly the face onto the blank frame.
pub proof fn lemma_startup_frame(s: RenderScheduler)
    ensures
        frame_after_ops(Seq::<DrawPrimitive>::empty(), startup_ops_at(s)) == face(
            s.layout,
            s.face_dirs@,
        ),
{
    lemma_frame_after_ops_append(
        Seq::<DrawPrimitive>::empty(),
        draw_ops(face(s.layout, s.face_dirs@)),
        seq![DisplayOp::Flush],
    );
    lemma_frame_after_draws(Seq::<DrawPrimitive>::empty(), face(s.layout, s.face_dirs@));
    assert(Seq::<DrawPrimitive>::empty() + face(s.layout, s.face_dirs@) =~= face(
        s.layout,
        s.face_dirs@,
    ));
    lemma_frame_after_ops_single(face(s.layout, s.face_dirs@), DisplayOp::Flush);
}

/// Events arriving in two bursts, drained separately, produce the same
/// operation stream and final state as one drain of the whole arrival
/// order: partial drains compose into a single serial order.
pub proof fn lemma_run_ops_append(s: RenderScheduler, a: Seq<Event>, b: Seq<Event>)
    ensures
        run_ops(s, a + b) == run_ops(s, a) + run_ops(run_state(s, a), b),
        run_state(s, a + b) == run_state(run_state(s, a), b),
    decreases a.len(),
{
    if a.len() == 0 {
        assert(a + b =~= b);
        assert(run_ops(s, a) + run_ops(s, b) =~= run_ops(s, b));
    } else {
        assert((a + b)[0] == a[0]);
        assert((a + b).skip(1) =~= a.skip(1) + b);
        lemma_run_ops_append(post_state(s, a[0]), a.skip(1), b);
        assert(event_ops(s, a[0]) + (run_ops(post_state(s, a[0]), a.skip(1)) + run_ops(
            run_state(s, a),
            b,
        )) =~= (event_ops(s, a[0]) + run_ops(post_state(s, a[0]), a.skip(1))) + run_ops(
            run_state(s, a),
            b,
        ));
    }
}

/// Serializability of the redesigned exclusion mechanism: executing the
/// operation stream of a whole drain leaves the frame exactly as handling
/// the events one at a time, in arrival order, would.  Together with
/// [`lemma_run_ops_append`], any interleaving of firings yields a final
/// frame equal to that of some serial order of the events.
pub proof fn lemma_drain_serializes(
    frame: Seq<DrawPrimitive>,
    s: RenderScheduler,
    events: Seq<Event>,
)
    ensures
        frame_after_ops(frame, run_ops(s, events)) == serial_frame(frame, s, events),
    decreases events.len(),
{
    if events.len() == 0 {
    } else {
        lemma_frame_after_ops_append(
            frame,
            event_ops(s, events[0]),
            run_ops(post_state(s, events[0]), events.skip(1)),
        );
        lemma_drain_serializes(
            frame_after_ops(frame, event_ops(s, events[0])),
            post_state(s, events[0]),
            events.skip(1),
        );
    }
}

/// Append one draw operation per primitive to `ops`, in order.
fn push_draws(ops: &mut Vec<DisplayOp>, prims: &Vec<DrawPrimitive>)
    ensures
        final(ops)@ == old(ops)@ + draw_ops(prims@),
{
    let ghost base = ops@;
    for i in 0..prims.len()
        invariant
            ops@ == base + draw_ops(prims@.take(i as int)),
    {
        ops.push(DisplayOp::Draw(prims[i]));
        proof {
            assert(prims@.take(i as int).push(prims@[i as int]) =~= prims@.take(i + 1 as int));
            assert(draw_ops(prims@.take(i as int)).push(DisplayOp::Draw(prims@[i as int])) =~=
                draw_ops(prims@.take(i + 1 as int)));
            assert((base + draw_ops(prims@.take(i as int))).push(
                DisplayOp::Draw(prims@[i as int]),
            ) =~= base + draw_ops(prims@.take(i + 1 as int)));
        }
    }
    proof {
        assert(prims@.take(prims@.len() as int) =~= prims@);
        assert(ops@ =~= base + draw_ops(prims@));
    }
}

} // verus!
