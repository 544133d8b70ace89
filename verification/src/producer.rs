use vstd::prelude::*;

verus! {

use crate::buffer::Buffer;
use crate::error::PushError;
use crate::slot::{state_rank, Slot, SlotState};

/// For a power-of-two capacity `c` with mask `m == c - 1`, masking leaves an
/// index below `c` unchanged: the ring index of claim position `pos` is
/// `pos` itself until the buffer has been used up.
pub(crate) proof fn lemma_index_below_capacity(pos: usize, c: usize, m: usize)
    by (bit_vector)
    requires
        2 <= c,
        c & ((c - 1) as usize) == 0,
        m == (c - 1) as usize,
        pos < c,
    ensures
        pos & m == pos,
{
}

/// Masking never yields more than the mask itself, so a masked position is
/// always a valid ring index.
pub(crate) proof fn lemma_mask_le(x: usize, m: usize)
    by (bit_vector)
    ensures
        x & m <= m,
{
}

/// A producer handle. It carries only the id stamped into the events it
/// publishes; ids are not yet allocated, so every handle made by
/// `Buffer::producer` carries id 0.
pub struct Producer {
    pub id: u8,
}

impl Producer {
    /// A producer with the given id.
    pub fn new(id: u8) -> (r: Producer)
        ensures
            r.id == id,
    {
        Producer { id }
    }

    /// Claim the slot at the head index, moving it Free -> Claimed and
    /// advancing the head, and return its index. Fails with `BufferFull`
    /// exactly when every slot has already been claimed; the buffer does
    /// not recycle slots, so a full buffer stays full.
    pub fn claim<T: Copy>(&self, buffer: &mut Buffer<T>) -> (r: Result<usize, PushError>)
        requires
            old(buffer).wf(),
        ensures
            final(buffer).wf(),
            final(buffer).capacity == old(buffer).capacity,
            final(buffer).mask == old(buffer).mask,
            // no slot ever moves backwards in the lifecycle
            forall|i: int|
                0 <= i < old(buffer).slots@.len() ==> state_rank(old(buffer).slots@[i].state)
                    <= state_rank((#[trigger] final(buffer).slots@[i]).state),
            old(buffer).head < old(buffer).capacity ==> {
                &&& r == Ok::<usize, PushError>(old(buffer).head)
                &&& final(buffer).head == old(buffer).head + 1
                &&& final(buffer).slots@ == old(buffer).slots@.update(
                    old(buffer).head as int,
                    (Slot {
                        state: SlotState::Claimed,
                        ..old(buffer).slots@[old(buffer).head as int]
                    }),
                )
            },
            old(buffer).head >= old(buffer).capacity ==> {
                &&& r == Err::<usize, PushError>(PushError::BufferFull)
                &&& *final(buffer) == *old(buffer)
            },
    {
        let pos = buffer.head;
        let idx = pos & buffer.mask;
        proof {
            lemma_mask_le(pos, buffer.mask);
            if pos < buffer.capacity {
                lemma_index_below_capacity(pos, buffer.capacity, buffer.mask);
            }
        }
        if buffer.slots[idx].state == SlotState::Free {
            proof {
                // a Free slot at the ring index means the head has not yet
                // reached the capacity: once it has, the ring index is 0 and
                // slot 0 was claimed long ago
                if pos >= buffer.capacity {
                    assert(idx == 0);
                    assert(buffer.slots@[0].state != SlotState::Free);
                }
            }
            let mut s = buffer.slots[idx];
            s.state = SlotState::Claimed;
            buffer.slots.set(idx, s);
            buffer.head = pos + 1;
            Ok(idx)
        } else {
            proof {
                // under well-formedness the slot at the ring index is Free
                // whenever the head is still below the capacity
                if pos < buffer.capacity {
                    assert(buffer.slots@[pos as int].state == SlotState::Free);
                    assert(false);
                }
            }
            Err(PushError::BufferFull)
        }
    }

    /// Publish into a claimed slot: store the payload, the timestamp and
    /// the producer id, then move the slot Claimed -> Published. Only the
    /// claimer calls this, with the index its claim returned.
    pub fn publish<T: Copy>(
        &self,
        buffer: &mut Buffer<T>,
        idx: usize,
        event: T,
        timestamp: u64,
    )
        requires
            old(buffer).wf(),
            idx < old(buffer).slots@.len(),
            old(buffer).slots@[idx as int].state == SlotState::Claimed,
        ensures
            final(buffer).wf(),
            final(buffer).capacity == old(buffer).capacity,
            final(buffer).mask == old(buffer).mask,
            final(buffer).head == old(buffer).head,
            forall|i: int|
                0 <= i < old(buffer).slots@.len() ==> state_rank(old(buffer).slots@[i].state)
                    <= state_rank((#[trigger] final(buffer).slots@[i]).state),
            final(buffer).slots@ == old(buffer).slots@.update(
                idx as int,
                (Slot {
                    state: SlotState::Published,
                    producer_id: self.id,
                    timestamp: timestamp,
                    payload: Some(event),
                    ..old(buffer).slots@[idx as int]
                }),
            ),
    {
        let mut s = buffer.slots[idx];
        s.payload = Some(event);
        s.timestamp = timestamp;
        s.producer_id = self.id;
        s.state = SlotState::Published;
        buffer.slots.set(idx, s);
    }

    /// Push one event: claim the slot at the head, write the payload and
    /// the caller's timestamp reading into it, and publish it. Succeeds
    /// exactly when a slot is still free; a full buffer reports
    /// `BufferFull` and is left untouched, so the caller may retry.
    pub fn push<T: Copy>(
        &self,
        buffer: &mut Buffer<T>,
        event: T,
        timestamp: u64,
    ) -> (r: Result<(), PushError>)
        requires
            old(buffer).wf(),
        ensures
            final(buffer).wf(),
            final(buffer).capacity == old(buffer).capacity,
            final(buffer).mask == old(buffer).mask,
            forall|i: int|
                0 <= i < old(buffer).slots@.len() ==> state_rank(old(buffer).slots@[i].state)
                    <= state_rank((#[trigger] final(buffer).slots@[i]).state),
            old(buffer).head < old(buffer).capacity ==> {
                &&& r == Ok::<(), PushError>(())
                &&& final(buffer).head == old(buffer).head + 1
                &&& final(buffer).slots@ == old(buffer).slots@.update(
                    old(buffer).head as int,
                    (Slot {
                        state: SlotState::Published,
                        producer_id: self.id,
                        timestamp: timestamp,
                        payload: Some(event),
                        ..old(buffer).slots@[old(buffer).head as int]
                    }),
                )
            },
            old(buffer).head >= old(buffer).capacity ==> {
                &&& r == Err::<(), PushError>(PushError::BufferFull)
                &&& *final(buffer) == *old(buffer)
            },
    {
        match self.claim(buffer) {
            Ok(idx) => {
                self.publish(buffer, idx, event, timestamp);
                proof {
                    assert(buffer.slots@ =~= old(buffer).slots@.update(
                        old(buffer).head as int,
                        (Slot {
                            state: SlotState::Published,
                            producer_id: self.id,
                            timestamp: timestamp,
                            payload: Some(event),
                            ..old(buffer).slots@[old(buffer).head as int]
                        }),
                    ));
                }
                Ok(())
            },
            Err(e) => Err(e),
        }
    }
}

} // verus!
