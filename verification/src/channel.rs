//! The event channel: an unbounded, order-preserving queue of tagged
//! events.  It is the sole synchronization boundary between the
//! producers (mount notification, resize dispatcher, user-event
//! injectors) and the single consuming task; enqueue never blocks and
//! never rejects.

use vstd::prelude::*;

use crate::canvas::CanvasEvent;

verus! {

/// An unbounded FIFO queue of events.  Its view is the sequence of
/// queued events, oldest first; `send` appends, `try_next` removes the
/// oldest.  No reordering, no coalescing, no backpressure.
pub struct EventChannel<T> {
    items: Vec<CanvasEvent<T>>,
}

impl<T> View for EventChannel<T> {
    type V = Seq<CanvasEvent<T>>;

    closed spec fn view(&self) -> Seq<CanvasEvent<T>> {
        self.items@
    }
}

impl<T> EventChannel<T> {
    /// A fresh, empty channel.
    pub fn new() -> (c: Self)
        ensures
            c@ == Seq::<CanvasEvent<T>>::empty(),
    {
        EventChannel { items: Vec::new() }
    }

    /// Enqueues one event at the back.  Never blocks, never rejects:
    /// the queue is unbounded.
    pub fn send(&mut self, event: CanvasEvent<T>)
        ensures
            final(self)@ == old(self)@.push(event),
    {
        self.items.push(event);
    }

    /// Removes and returns the oldest queued event, or `None` when the
    /// queue is empty.
    pub fn try_next(&mut self) -> (r: Option<CanvasEvent<T>>)
        ensures
            old(self)@.len() == 0 ==> r is None && final(self)@ == old(self)@,
            old(self)@.len() > 0 ==> r == Some(old(self)@[0])
                && final(self)@ == old(self)@.drop_first(),
    {
        if self.items.len() == 0 {
            None
        } else {
            Some(self.items.remove(0))
        }
    }

    /// How many events are queued.
    pub fn len(&self) -> (n: usize)
        ensures
            n == self@.len(),
    {
        self.items.len()
    }
}

} // verus!
