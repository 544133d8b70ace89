use vstd::prelude::*;

verus! {

use crate::buffer::Buffer;
use crate::slot::{state_rank, Slot, SlotState};

/// Every slot from index 0 through `i` has reached the sequencer: each one
/// is already Published or Sequenced. The sequencer can promote exactly the
/// slots for which this holds — it never leaps over a Free or Claimed slot,
/// because doing so would sequence later claims out of order.
pub open spec fn promotable_through<T: Copy>(b: Buffer<T>, i: int) -> bool {
    forall|j: int|
        0 <= j <= i ==> ((#[trigger] b.slots@[j]).state == SlotState::Published
            || b.slots@[j].state == SlotState::Sequenced)
}

/// One pass of the sequencer: walk the slots from index 0 upward, skip the
/// already sequenced prefix, promote Published -> Sequenced stamping each
/// slot with the next sequence number, and stop at the first slot that is
/// still Free or Claimed. Since claims happen in head order and sequenced
/// slots form a prefix, the stamped sequence number always equals the slot
/// index: sequences form the contiguous set 0, 1, 2, ...
///
/// A slot that the pass leaves alone is promoted by a later pass once the
/// slots before it have been published; the pass itself never blocks.
pub fn sequencer_loop<T: Copy>(buffer: &mut Buffer<T>)
    requires
        old(buffer).wf(),
    ensures
        final(buffer).wf(),
        final(buffer).capacity == old(buffer).capacity,
        final(buffer).mask == old(buffer).mask,
        final(buffer).head == old(buffer).head,
        // no slot ever moves backwards in the lifecycle
        forall|i: int|
            0 <= i < old(buffer).slots@.len() ==> state_rank(old(buffer).slots@[i].state)
                <= state_rank((#[trigger] final(buffer).slots@[i]).state),
        // the maximal published run from index 0 is now sequenced, each slot
        // stamped with its own index and its published fields untouched
        forall|i: int|
            0 <= i < old(buffer).slots@.len() && promotable_through(*old(buffer), i)
                ==> (#[trigger] final(buffer).slots@[i]) == (Slot {
                state: SlotState::Sequenced,
                sequence: i as u64,
                ..old(buffer).slots@[i]
            }),
        // everything past that run is exactly as it was
        forall|i: int|
            0 <= i < old(buffer).slots@.len() && !promotable_through(*old(buffer), i)
                ==> (#[trigger] final(buffer).slots@[i]) == old(buffer).slots@[i],
{
    let mut next_seq: u64 = 0;
    let mut scan_pos: usize = 0;

    while scan_pos < buffer.slots.len() && (buffer.slots[scan_pos].state == SlotState::Published
        || buffer.slots[scan_pos].state == SlotState::Sequenced)
        invariant
            buffer.wf(),
            buffer.capacity == old(buffer).capacity,
            buffer.mask == old(buffer).mask,
            buffer.head == old(buffer).head,
            buffer.slots@.len() == old(buffer).slots@.len(),
            scan_pos <= buffer.slots@.len(),
            next_seq == scan_pos,
            forall|j: int| 0 <= j < scan_pos ==> promotable_through(*old(buffer), j),
            forall|j: int|
                0 <= j < scan_pos ==> (#[trigger] buffer.slots@[j]) == (Slot {
                    state: SlotState::Sequenced,
                    sequence: j as u64,
                    ..old(buffer).slots@[j]
                }),
            forall|j: int|
                scan_pos <= j < buffer.slots@.len() ==> (#[trigger] buffer.slots@[j])
                    == old(buffer).slots@[j],
        decreases buffer.slots@.len() - scan_pos,
    {
        proof {
            // the run reaching up to the scan position is promotable: every
            // earlier slot already was, and the slot under the scan is
            // Published or Sequenced by the loop condition and still holds
            // its original value
            assert forall|j: int| 0 <= j <= scan_pos implies (old(
                buffer,
            ).slots@[j].state == SlotState::Published || old(buffer).slots@[j].state
                == SlotState::Sequenced) by {
                if j < scan_pos {
                    assert(promotable_through(*old(buffer), j));
                } else {
                    assert(buffer.slots@[j] == old(buffer).slots@[j]);
                }
            }
            assert(promotable_through(*old(buffer), scan_pos as int));
        }
        if buffer.slots[scan_pos].state == SlotState::Published {
            let mut s = buffer.slots[scan_pos];
            s.sequence = next_seq;
            s.state = SlotState::Sequenced;
            buffer.slots.set(scan_pos, s);
        }
        scan_pos = scan_pos + 1;
        next_seq = next_seq + 1;
    }

    proof {
        // past the stopping point nothing was promotable: the slot the scan
        // stopped at is neither Published nor Sequenced and stands in the
        // way of every later index
        assert forall|i: int|
            scan_pos <= i < buffer.slots@.len() implies !promotable_through(
            *old(buffer),
            i,
        ) by {
            assert(buffer.slots@[scan_pos as int] == old(buffer).slots@[scan_pos as int]);
        }
    }
}

} // verus!
