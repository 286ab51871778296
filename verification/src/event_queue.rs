//! The FIFO queue between the platform poller and the application: events
//! are appended at the back as they arrive and drained from the front, so
//! pops observe strict arrival order.

use vstd::prelude::*;
use std::collections::VecDeque;
use crate::event::Event;

verus! {

/// An unbounded first-in first-out queue of events with one producer (the
/// poller) and one consumer (the frame loop).
pub struct EventQueue {
    events: VecDeque<Event>,
}

impl View for EventQueue {
    type V = Seq<Event>;

    closed spec fn view(&self) -> Seq<Event> {
        self.events@
    }
}

impl EventQueue {
    /// Builds an empty queue.
    pub fn new() -> (r: EventQueue)
        ensures
            r@.len() == 0,
    {
        EventQueue { events: VecDeque::new() }
    }

    /// The number of events waiting in the queue.
    pub fn len(&self) -> (r: usize)
        ensures
            r == self@.len(),
    {
        self.events.len()
    }

    /// Appends an event at the back of the queue.
    pub fn add_event(&mut self, event: Event)
        ensures
            final(self)@ == old(self)@.push(event),
    {
        self.events.push_back(event);
    }

    /// Removes and returns the event at the front of the queue: the oldest
    /// one still waiting. On an empty queue it returns nothing and leaves
    /// the queue unchanged.
    pub fn get_event(&mut self) -> (r: Option<Event>)
        ensures
            old(self)@.len() == 0 ==> r is None && final(self)@ == old(self)@,
            old(self)@.len() > 0 ==> r == Some(old(self)@[0]) && final(self)@ == old(
                self,
            )@.drop_first(),
    {
        let r = self.events.pop_front();
        proof {
            if old(self)@.len() > 0 {
                assert(self@ =~= old(self)@.drop_first());
            }
        }
        r
    }
}

/// The queue preserves arrival order: pushing `e1`, `e2`, `e3` onto an
/// empty queue and then popping three times yields `e1`, `e2`, `e3` in
/// that order and leaves the queue empty. `add_event` appends the event
/// to the queue's view and `get_event` returns the view's head, so the
/// statement is over the views those contracts produce.
pub proof fn lemma_fifo_order(e1: Event, e2: Event, e3: Event)
    ensures
        ({
            let after = Seq::<Event>::empty().push(e1).push(e2).push(e3);
            &&& after[0] == e1
            &&& after.drop_first()[0] == e2
            &&& after.drop_first().drop_first()[0] == e3
            &&& after.drop_first().drop_first().drop_first().len() == 0
        }),
{
}

} // verus!
