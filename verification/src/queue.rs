//! A bounded first-in-first-out queue of render events.
//!
//! Both hardware event sources append to one queue; a single consumer
//! drains it in arrival order.  This replaces priority-level preemption as
//! the exclusion mechanism for the display: ordering is explicit, and the
//! consumer finishes one redraw before starting the next.

use vstd::prelude::*;
use crate::scheduler::Event;

verus! {

/// A bounded queue of pending events.  When full, further events are
/// dropped at the producer, never merged or reordered.
#[derive(Clone, Debug)]
pub struct EventQueue {
    items: Vec<Event>,
    capacity: usize,
}

impl EventQueue {
    /// The pending events, oldest first.
    pub closed spec fn events(self) -> Seq<Event> {
        self.items@
    }

    /// The fixed bound on the number of pending events.
    pub closed spec fn cap(self) -> nat {
        self.capacity as nat
    }

    /// Well-formedness: the bound holds and every pending event is
    /// well-formed.
    pub open spec fn wf(self) -> bool {
        &&& self.events().len() <= self.cap()
        &&& forall|i: int| 0 <= i < self.events().len() ==> self.events()[i].wf()
    }

    /// An empty queue with the given bound.
    pub fn new(capacity: usize) -> (q: EventQueue)
        ensures
            q.wf(),
            q.cap() == capacity as nat,
            q.events() == Seq::<Event>::empty(),
    {
        EventQueue { items: Vec::new(), capacity }
    }

    /// How many events are pending.
    pub fn len(&self) -> (n: usize)
        ensures
            n == self.events().len(),
    {
        self.items.len()
    }

    /// Append one event if the queue has room; report whether it was
    /// accepted.  A rejected event is dropped, so a producer that must not
    /// lose firings has to size the bound for its burst rate.
    pub fn offer(&mut self, event: Event) -> (accepted: bool)
        requires
            old(self).wf(),
            event.wf(),
        ensures
            final(self).wf(),
            final(self).cap() == old(self).cap(),
            accepted == (old(self).events().len() < old(self).cap()),
            accepted ==> final(self).events() == old(self).events().push(event),
            !accepted ==> final(self).events() == old(self).events(),
    {
        if self.items.len() < self.capacity {
            self.items.push(event);
            true
        } else {
            false
        }
    }

    /// Remove and return the oldest pending event, or report emptiness.
    pub fn take_next(&mut self) -> (next: Option<Event>)
        requires
            old(self).wf(),
        ensures
            final(self).wf(),
            final(self).cap() == old(self).cap(),
            (match next {
                Option::Some(event) => old(self).events().len() > 0 && event == old(
                    self,
                ).events()[0] && final(self).events() == old(self).events().skip(1),
                Option::None => old(self).events().len() == 0 && final(self).events() == old(
                    self,
                ).events(),
            }),
    {
        if self.items.len() == 0 {
            None
        } else {
            let event = self.items.remove(0);
            proof {
                assert(self.items@ =~= old(self).items@.skip(1));
            }
            Some(event)
        }
    }
}

} // verus!
