//! The queue between the capture layer and the poll layer.

use vstd::prelude::*;
use crate::event::event_views;
use crate::event::WebEvent;
use crate::event::WebEventView;

verus! {

/// An unbounded first-in, first-out queue of captured events.
///
/// Listeners append with [`EventQueue::enqueue`]; the host empties it once per
/// tick with [`EventQueue::drain`]. Whoever shares it between the two wraps it
/// in a lock and hands [`offer`] and [`take_batch`] what the lock gave.
#[derive(Debug)]
pub struct EventQueue {
    events: Vec<WebEvent>,
}

impl View for EventQueue {
    type V = Seq<WebEventView>;

    /// The waiting events, oldest first.
    closed spec fn view(&self) -> Seq<WebEventView> {
        event_views(self.events@)
    }
}

impl EventQueue {
    /// An empty queue.
    pub fn new() -> (queue: Self)
        ensures
            queue@ == Seq::<WebEventView>::empty(),
    {
        EventQueue { events: Vec::new() }
    }

    /// Appends `event` behind everything that waits already.
    pub fn enqueue(&mut self, event: WebEvent)
        ensures
            final(self)@ == old(self)@.push(event@),
    {
        self.events.push(event);
    }

    /// Takes out everything that waits, oldest first, and leaves the queue
    /// empty: the contents are swapped for an empty queue in one step.
    pub fn drain(&mut self) -> (batch: Vec<WebEvent>)
        ensures
            event_views(batch@) == old(self)@,
            final(self)@ == Seq::<WebEventView>::empty(),
    {
        let mut batch: Vec<WebEvent> = Vec::new();
        std::mem::swap(&mut batch, &mut self.events);
        batch
    }

    /// How many events wait.
    pub fn len(&self) -> (n: usize)
        ensures
            n == self@.len(),
    {
        self.events.len()
    }

    /// Whether nothing waits.
    pub fn is_empty(&self) -> (empty: bool)
        ensures
            empty == (self@.len() == 0),
    {
        self.events.len() == 0
    }
}

/// The queue after `events` were enqueued one after another, oldest first.
pub open spec fn enqueued(
    queue: Seq<WebEventView>,
    events: Seq<WebEventView>,
) -> Seq<WebEventView>
    decreases events.len(),
{
    if events.len() == 0 {
        queue
    } else {
        enqueued(queue, events.drop_last()).push(events.last())
    }
}

/// The producer's side of the lock: enqueues `event` if the lock was taken.
///
/// `queue` is the queue behind the lock, or `None` when the lock could not be
/// taken. In that case this one event is dropped: it is neither retried nor
/// kept anywhere else.
pub fn offer(queue: Option<&mut EventQueue>, event: WebEvent) -> (accepted: bool)
    ensures
        match queue {
            Some(q) => accepted && final(q)@ == q@.push(event@),
            None => !accepted,
        },
{
    match queue {
        Some(q) => {
            q.enqueue(event);
            true
        },
        None => false,
    }
}

/// The consumer's side of the lock: drains the queue if the lock was taken.
///
/// `queue` is the queue behind the lock, or `None` when the lock could not be
/// taken. In that case the tick's drain is skipped: nothing is returned, and
/// the queue keeps its events for the next tick.
pub fn take_batch(queue: Option<&mut EventQueue>) -> (drained: Option<Vec<WebEvent>>)
    ensures
        match queue {
            Some(q) => {
                &&& drained matches Some(batch)
                &&& event_views(batch@) == q@
                &&& final(q)@ == Seq::<WebEventView>::empty()
            },
            None => drained is None,
        },
{
    match queue {
        Some(q) => Some(q.drain()),
        None => None,
    }
}

} // verus!
