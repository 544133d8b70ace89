use vstd::prelude::*;

verus! {

use crate::buffer::Buffer;
use crate::producer::{lemma_index_below_capacity, lemma_mask_le};
use crate::slot::SlotState;

/// The record handed to a consumer: the total-order sequence number, the
/// timestamp captured at publish, the id of the publishing producer, and
/// the payload. Immutable once produced.
#[derive(Debug, Clone, Copy)]
pub struct Event<T> {
    pub sequence: u64,
    pub timestamp: u64,
    pub producer_id: u8,
    pub payload: T,
}

/// A consumer owns nothing but its private cursor into sequence space.
/// Consumers are independent and non-destructive: any number of them read
/// the same slots.
pub struct Consumer {
    pub cursor: u64,
}

/// Whether a consumer at `cursor` has an event to observe: the slot at the
/// cursor has been sequenced. Because the buffer is one-shot, a cursor that
/// has run past the capacity never becomes readable again.
pub open spec fn readable<T: Copy>(b: Buffer<T>, cursor: u64) -> bool {
    cursor < b.capacity && b.slots@[cursor as int].state == SlotState::Sequenced
}

/// The event a consumer at `cursor` observes, when one is readable.
pub open spec fn read_event<T: Copy>(b: Buffer<T>, cursor: u64) -> Event<T>
    recommends
        readable(b, cursor),
{
    Event {
        sequence: cursor,
        timestamp: b.slots@[cursor as int].timestamp,
        producer_id: b.slots@[cursor as int].producer_id,
        payload: b.slots@[cursor as int].payload->0,
    }
}

/// The stream a consumer observes from `cursor` on: one event per sequenced
/// slot, in cursor order, ending at the first slot not yet sequenced or at
/// the `fuel` bound. A pure function of the buffer and the cursor — which
/// is what makes replay deterministic.
pub open spec fn replay_from<T: Copy>(b: Buffer<T>, cursor: u64, fuel: nat) -> Seq<Event<T>>
    decreases fuel,
{
    if fuel == 0 || !readable(b, cursor) {
        Seq::empty()
    } else {
        seq![read_event(b, cursor)] + replay_from(b, ((cursor + 1) as u64), ((fuel - 1) as nat))
    }
}

impl Consumer {
    /// A consumer whose cursor starts at sequence 0.
    pub fn new() -> (r: Consumer)
        ensures
            r.cursor == 0,
    {
        Consumer { cursor: 0 }
    }

    /// Observe the event at the cursor, if the slot there has been
    /// sequenced, and advance the cursor; otherwise leave the cursor alone
    /// and return None. Never an error: a slot that is not ready simply
    /// yields nothing yet.
    pub fn try_next<T: Copy>(&mut self, buffer: &Buffer<T>) -> (r: Option<Event<T>>)
        requires
            buffer.wf(),
        ensures
            readable(*buffer, old(self).cursor) ==> {
                &&& r == Some(read_event(*buffer, old(self).cursor))
                &&& final(self).cursor == old(self).cursor + 1
            },
            !readable(*buffer, old(self).cursor) ==> {
                &&& r == None::<Event<T>>
                &&& *final(self) == *old(self)
            },
    {
        let slot_idx = (self.cursor as usize) & buffer.mask;
        proof {
            lemma_mask_le(self.cursor as usize, buffer.mask);
            if self.cursor < buffer.capacity {
                lemma_index_below_capacity(
                    self.cursor as usize,
                    buffer.capacity,
                    buffer.mask,
                );
            }
        }

        let state = buffer.slots[slot_idx].state;
        if state != SlotState::Sequenced {
            return None;
        }

        // defensive check: a sequenced slot carries its own index as its
        // sequence number, so a mismatch only happens once the cursor has
        // run past the one-shot buffer
        let seq = buffer.slots[slot_idx].sequence;
        if seq != self.cursor {
            return None;
        }

        let payload = buffer.slots[slot_idx].payload.unwrap();
        let timestamp = buffer.slots[slot_idx].timestamp;
        let producer_id = buffer.slots[slot_idx].producer_id;

        let event = Event { sequence: seq, timestamp, producer_id, payload };
        self.cursor = self.cursor + 1;
        Some(event)
    }

    /// The iterator view of this consumer: it takes the consumer over and
    /// keeps advancing its cursor, one `next` per `try_next`.
    pub fn iter(self) -> (r: ConsumerIter)
        ensures
            r.consumer == self,
    {
        ConsumerIter { consumer: self }
    }
}

/// Iterator view over a consumer's remaining events.
pub struct ConsumerIter {
    pub consumer: Consumer,
}

impl ConsumerIter {
    /// Observe the next event, exactly as the consumer's `try_next` would.
    pub fn next<T: Copy>(&mut self, buffer: &Buffer<T>) -> (r: Option<Event<T>>)
        requires
            buffer.wf(),
        ensures
            readable(*buffer, old(self).consumer.cursor) ==> {
                &&& r == Some(read_event(*buffer, old(self).consumer.cursor))
                &&& final(self).consumer.cursor == old(self).consumer.cursor + 1
            },
            !readable(*buffer, old(self).consumer.cursor) ==> {
                &&& r == None::<Event<T>>
                &&& *final(self) == *old(self)
            },
    {
        self.consumer.try_next(buffer)
    }

    /// Hand the consumer back, cursor advanced past everything iterated.
    pub fn into_consumer(self) -> (r: Consumer)
        ensures
            r == self.consumer,
    {
        self.consumer
    }
}

/// Replay determinism: the stream a consumer observes is a function of the
/// buffer and the starting cursor alone. Two consumers started at the same
/// cursor — in particular, two fresh consumers at cursor 0 — observe
/// identical event records in identical order.
pub proof fn lemma_replay_deterministic<T: Copy>(b: Buffer<T>, c1: u64, c2: u64, fuel: nat)
    requires
        c1 == c2,
    ensures
        replay_from(b, c1, fuel) == replay_from(b, c2, fuel),
{
}

/// The sequenced prefix is observed in full: from any cursor inside it, the
/// stream runs to the head and stops there, one event per slot.
proof fn lemma_replay_from_segment<T: Copy>(b: Buffer<T>, cursor: u64, fuel: nat)
    requires
        b.wf(),
        cursor <= b.head,
        fuel >= b.head - cursor,
        forall|i: int| 0 <= i < b.head ==> (#[trigger] b.slots@[i]).state == SlotState::Sequenced,
    ensures
        replay_from(b, cursor, fuel).len() == b.head - cursor,
        forall|i: int|
            0 <= i < b.head - cursor ==> (#[trigger] replay_from(b, cursor, fuel)[i])
                == read_event(b, ((cursor + i) as u64)),
    decreases fuel,
{
    if cursor == b.head {
        assert(!readable(b, cursor));
    } else {
        assert(readable(b, cursor));
        lemma_replay_from_segment(b, ((cursor + 1) as u64), ((fuel - 1) as nat));
    }
}

/// After `k` completed pushes (one claimed-and-published slot each) have
/// all been sequenced, a consumer started at cursor 0 observes exactly `k`
/// events: the i-th carries sequence number i and the payload, timestamp
/// and producer id published into slot i — the pushed values, in claim
/// order, and nothing else.
pub proof fn lemma_observes_all_pushed<T: Copy>(b: Buffer<T>, fuel: nat)
    requires
        b.wf(),
        fuel >= b.head,
        forall|i: int| 0 <= i < b.head ==> (#[trigger] b.slots@[i]).state == SlotState::Sequenced,
    ensures
        replay_from(b, 0, fuel).len() == b.head,
        forall|i: int|
            0 <= i < b.head ==> (#[trigger] replay_from(b, 0, fuel)[i]) == read_event(
                b,
                i as u64,
            ),
        forall|i: int|
            0 <= i < b.head ==> (#[trigger] replay_from(b, 0, fuel)[i]).sequence == i
                && replay_from(b, 0, fuel)[i].payload == b.slots@[i].payload->0
                && replay_from(b, 0, fuel)[i].timestamp == b.slots@[i].timestamp
                && replay_from(b, 0, fuel)[i].producer_id == b.slots@[i].producer_id,
{
    lemma_replay_from_segment(b, 0, fuel);
}

} // verus!
