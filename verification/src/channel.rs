//! Model of the bounded, ordered, single-producer/single-consumer event
//! channel between the signal listener and the presence actor.

use vstd::prelude::*;
use crate::event::{PresenceEvent, PresenceEventView};

verus! {

/// The listener-to-actor channel: a bounded first-in-first-out queue of
/// events, plus the closed flag the listener sets when it stops producing.
/// Once closed, no further event enters; the actor may still drain what is
/// queued.
pub struct EventChannel {
    pub items: Vec<PresenceEvent>,
    pub capacity: usize,
    pub closed: bool,
}

impl EventChannel {
    /// The queued events, oldest first.
    pub open spec fn pending(self) -> Seq<PresenceEventView> {
        self.items.deep_view()
    }

    /// Well-formedness: the queue never exceeds the fixed bound.
    pub open spec fn wf(self) -> bool {
        self.capacity >= 1 && self.items@.len() <= self.capacity
    }

    /// A fresh, open, empty channel with the given bound.
    pub fn new(capacity: usize) -> (r: EventChannel)
        requires
            capacity >= 1,
        ensures
            r.wf(),
            r.pending() =~= Seq::<PresenceEventView>::empty(),
            r.capacity == capacity,
            !r.closed,
    {
        EventChannel { items: Vec::new(), capacity, closed: false }
    }

    /// How many events are queued.
    pub fn queued(&self) -> (r: usize)
        ensures
            r == self.pending().len(),
    {
        self.items.len()
    }

    /// Whether a send would find space. When it would not, the producer
    /// must wait (backpressure), never drop the event.
    pub fn has_room(&self) -> (r: bool)
        ensures
            r == (self.pending().len() < self.capacity),
    {
        self.items.len() < self.capacity
    }

    /// Enqueues one event at the back. Requires an open channel with room:
    /// the producer blocks on a full channel rather than dropping, and
    /// never sends after closing.
    pub fn send(&mut self, event: PresenceEvent)
        requires
            old(self).wf(),
            !old(self).closed,
            old(self).pending().len() < old(self).capacity,
        ensures
            final(self).wf(),
            final(self).pending() =~= old(self).pending().push(event@),
            final(self).capacity == old(self).capacity,
            !final(self).closed,
    {
        self.items.push(event);
    }

    /// Closes the sending side; everything already queued stays queued.
    pub fn close(&mut self)
        requires
            old(self).wf(),
        ensures
            final(self).wf(),
            final(self).pending() =~= old(self).pending(),
            final(self).capacity == old(self).capacity,
            final(self).closed,
    {
        self.closed = true;
    }

    /// Receives the oldest queued event. A consumer waits on an open, empty
    /// channel (so this asks for an event or a closed channel); `None`
    /// means the channel is closed and fully drained — the actor's signal
    /// to stop.
    pub fn recv(&mut self) -> (r: Option<PresenceEvent>)
        requires
            old(self).wf(),
            old(self).pending().len() > 0 || old(self).closed,
        ensures
            final(self).wf(),
            final(self).capacity == old(self).capacity,
            final(self).closed == old(self).closed,
            old(self).pending().len() > 0 ==> ({
                &&& r matches Some(e) && e@ == old(self).pending()[0]
                &&& final(self).pending() =~= old(self).pending().drop_first()
            }),
            old(self).pending().len() == 0 ==> r is None && final(self).pending()
                =~= old(self).pending(),
    {
        if self.items.len() > 0 {
            Some(self.items.remove(0))
        } else {
            None
        }
    }
}

} // verus!
