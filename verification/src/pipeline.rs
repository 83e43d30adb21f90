//! Processing settings, and the grouping of consumed events into batches for
//! delivery: a batch is emitted once it holds `batch_size` events, or, when the
//! batch timeout passes, with whatever is pending.

use vstd::prelude::*;
use crate::consumer::{Event, EventView};

verus! {

/// Settings of the processing stage between the consumers and the sender.
#[derive(Clone, Debug)]
pub struct ProcessingConfig {
    pub batch_size: usize,
    pub batch_timeout_ms: u64,
    pub worker_count: usize,
    pub queue_size: usize,
}

impl Default for ProcessingConfig {
    fn default() -> (c: Self)
        ensures
            c.batch_size == 1000,
            c.batch_timeout_ms == 100,
            c.worker_count == 4,
            c.queue_size == 10000,
    {
        ProcessingConfig { batch_size: 1000, batch_timeout_ms: 100, worker_count: 4, queue_size: 10000 }
    }
}

/// A batch of events handed to the sender, in the order they were consumed.
#[derive(Debug)]
pub struct EventBatch {
    pub events: Vec<Event>,
}

/// The events of a sequence, as plain values.
pub open spec fn event_views(events: Seq<Event>) -> Seq<EventView> {
    events.map_values(|e: Event| e@)
}

impl View for EventBatch {
    type V = Seq<EventView>;

    open spec fn view(&self) -> Seq<EventView> {
        event_views(self.events@)
    }
}

/// The largest number of events a batch holds (a batch size of 0 is taken as 1).
pub open spec fn batch_capacity(batch_size: usize) -> nat {
    if batch_size == 0 {
        1
    } else {
        batch_size as nat
    }
}

/// Groups events into batches.
pub struct EventBatcher {
    batch_size: usize,
    pending: Vec<Event>,
}

/// A batcher as plain values: its capacity and the events not yet emitted.
pub struct EventBatcherView {
    pub capacity: nat,
    pub pending: Seq<EventView>,
}

impl View for EventBatcher {
    type V = EventBatcherView;

    closed spec fn view(&self) -> EventBatcherView {
        EventBatcherView { capacity: batch_capacity(self.batch_size), pending: event_views(self.pending@) }
    }
}

impl EventBatcher {
    /// Pending events never fill a whole batch.
    pub closed spec fn well_formed(&self) -> bool {
        self.pending.len() < batch_capacity(self.batch_size)
    }

    /// A batcher emitting batches of `batch_size` events, with nothing pending.
    pub fn new(batch_size: usize) -> (b: Self)
        ensures
            b.well_formed(),
            b@.capacity == batch_capacity(batch_size),
            b@.pending == Seq::<EventView>::empty(),
    {
        let b = EventBatcher { batch_size, pending: Vec::new() };
        proof {
            assert(b@.pending =~= Seq::<EventView>::empty());
        }
        b
    }

    /// The number of events waiting for their batch.
    pub fn pending_len(&self) -> (n: usize)
        ensures
            n == self@.pending.len(),
    {
        self.pending.len()
    }

    /// Adds `event`. When that fills a batch, the batch (everything pending, then
    /// `event`) is emitted and nothing stays pending.
    pub fn push(&mut self, event: Event) -> (out: Option<EventBatch>)
        requires
            old(self).well_formed(),
        ensures
            final(self).well_formed(),
            final(self)@.capacity == old(self)@.capacity,
            old(self)@.pending.len() + 1 == old(self)@.capacity ==> (out matches Some(b) && b@ == old(
                self,
            )@.pending.push(event@) && final(self)@.pending.len() == 0),
            old(self)@.pending.len() + 1 < old(self)@.capacity ==> (out is None && final(self)@.pending == old(
                self,
            )@.pending.push(event@)),
    {
        let ghost before = self.pending@;
        let ghost ev = event@;
        self.pending.push(event);
        proof {
            assert(event_views(self.pending@) =~= event_views(before).push(ev));
        }
        let cap: usize = if self.batch_size == 0 {
            1
        } else {
            self.batch_size
        };
        if self.pending.len() >= cap {
            let mut events: Vec<Event> = Vec::new();
            std::mem::swap(&mut events, &mut self.pending);
            proof {
                assert(event_views(self.pending@) =~= Seq::<EventView>::empty());
            }
            Some(EventBatch { events })
        } else {
            None
        }
    }

    /// Emits everything pending as a batch, if anything is pending.
    pub fn flush(&mut self) -> (out: Option<EventBatch>)
        requires
            old(self).well_formed(),
        ensures
            final(self).well_formed(),
            final(self)@.capacity == old(self)@.capacity,
            final(self)@.pending.len() == 0,
            old(self)@.pending.len() == 0 ==> out is None,
            old(self)@.pending.len() > 0 ==> (out matches Some(b) && b@ == old(self)@.pending),
    {
        if self.pending.len() == 0 {
            proof {
                assert(event_views(self.pending@) =~= Seq::<EventView>::empty());
            }
            return None;
        }
        let mut events: Vec<Event> = Vec::new();
        std::mem::swap(&mut events, &mut self.pending);
        proof {
            assert(event_views(self.pending@) =~= Seq::<EventView>::empty());
        }
        Some(EventBatch { events })
    }
}

/// The batches emitted by a push, followed by what stays pending, are exactly
/// what was pending followed by the pushed event: no event is lost, duplicated
/// or reordered.
pub proof fn lemma_push_preserves_events(
    before: Seq<EventView>,
    event: EventView,
    emitted: Option<Seq<EventView>>,
    after: Seq<EventView>,
    capacity: nat,
)
    requires
        before.len() < capacity,
        before.len() + 1 == capacity ==> (emitted == Some(before.push(event)) && after.len() == 0),
        before.len() + 1 < capacity ==> (emitted is None && after == before.push(event)),
    ensures
        match emitted {
            Some(b) => b + after == before.push(event) && b.len() == capacity,
            None => after == before.push(event),
        },
        after.len() < capacity,
{
    if let Some(b) = emitted {
        assert(b + after =~= before.push(event));
    }
}

} // verus!
