use vstd::prelude::*;

verus! {

use crate::consumer::Consumer;
use crate::error::BuildError;
use crate::producer::Producer;
use crate::slot::{initial_slot, Slot, SlotState};

/// The largest capacity a buffer may be built with.
pub const MAX_CAPACITY: usize = 0x4000_0000;

/// A capacity below two or not a power of two is rejected outright.
pub open spec fn capacity_invalid(c: usize) -> bool {
    c < 2 || c & ((c - 1) as usize) != 0
}

/// An acceptable power of two that still exceeds the ceiling.
pub open spec fn capacity_too_large(c: usize) -> bool {
    !capacity_invalid(c) && c > MAX_CAPACITY
}

/// A capacity the buffer can be built with: a power of two between 2 and
/// `MAX_CAPACITY` inclusive.
pub open spec fn valid_capacity(c: usize) -> bool {
    !capacity_invalid(c) && c <= MAX_CAPACITY
}

/// The fixed ring of slots plus the shared claim index.
///
/// `head` is the monotonically non-decreasing claim counter: every slot
/// below it has been claimed (and possibly published and sequenced, in that
/// order), every slot from it onward is still Free. Since sequenced slots
/// are never recycled, `head` never exceeds `capacity` and a slot index is
/// also the sequence number the sequencer will stamp on it.
#[derive(Debug)]
pub struct Buffer<T> {
    pub slots: Vec<Slot<T>>,
    pub capacity: usize,
    pub mask: usize,
    pub head: usize,
}

impl<T: Copy> Buffer<T> {
    /// Well-formedness: the shape of the ring and the one-way discipline of
    /// the slot lifecycle. Every operation of the library preserves it.
    pub open spec fn wf(self) -> bool {
        &&& valid_capacity(self.capacity)
        &&& self.mask == self.capacity - 1
        &&& self.slots@.len() == self.capacity
        &&& self.head <= self.capacity
        // slots below the head have been claimed, those above are untouched
        &&& forall|i: int| 0 <= i < self.head ==> (#[trigger] self.slots@[i]).state != SlotState::Free
        &&& forall|i: int| self.head <= i < self.slots@.len() ==> (#[trigger] self.slots@[i]).state == SlotState::Free
        // the sequenced slots form a prefix of the ring
        &&& forall|i: int, j: int|
            0 <= i < j < self.slots@.len() && (#[trigger] self.slots@[j]).state == SlotState::Sequenced
                ==> (#[trigger] self.slots@[i]).state == SlotState::Sequenced
        // a sequenced slot carries its own index as sequence number
        &&& forall|i: int|
            0 <= i < self.slots@.len() && (#[trigger] self.slots@[i]).state == SlotState::Sequenced
                ==> self.slots@[i].sequence == i
        // a published or sequenced slot holds a payload
        &&& forall|i: int|
            0 <= i < self.slots@.len()
                && ((#[trigger] self.slots@[i]).state == SlotState::Published
                    || self.slots@[i].state == SlotState::Sequenced) ==> self.slots@[i].payload is Some
    }

    /// Entry point of the construction facade.
    pub fn builder() -> (r: BufferBuilder<T>)
        ensures
            r.capacity is None,
    {
        BufferBuilder::new()
    }

    /// Build a buffer of `capacity` slots, all Free, with the claim index at
    /// zero. The capacity must be a power of two between 2 and
    /// `MAX_CAPACITY`; anything else is rejected.
    pub fn new(capacity: usize) -> (r: Result<Buffer<T>, BuildError>)
        ensures
            capacity_invalid(capacity) ==> r == Err::<Buffer<T>, BuildError>(
                BuildError::InvalidCapacity,
            ),
            capacity_too_large(capacity) ==> r == Err::<Buffer<T>, BuildError>(
                BuildError::TooLarge,
            ),
            valid_capacity(capacity) ==> {
                &&& r matches Ok(b)
                &&& b.wf()
                &&& b.capacity == capacity
                &&& b.mask == capacity - 1
                &&& b.head == 0
                &&& b.slots@.len() == capacity
                &&& forall|i: int| 0 <= i < capacity ==> b.slots@[i] == initial_slot::<T>()
            },
    {
        if capacity < 2 {
            return Err(BuildError::InvalidCapacity);
        }
        if capacity & (capacity - 1) != 0 {
            return Err(BuildError::InvalidCapacity);
        }
        if capacity > MAX_CAPACITY {
            return Err(BuildError::TooLarge);
        }

        let mut slots: Vec<Slot<T>> = Vec::new();
        let mut i: usize = 0;
        while i < capacity
            invariant
                i <= capacity,
                slots@.len() == i,
                forall|j: int| 0 <= j < i ==> slots@[j] == initial_slot::<T>(),
            decreases capacity - i,
        {
            slots.push(Slot::new());
            i = i + 1;
        }

        Ok(Buffer { slots, capacity, mask: capacity - 1, head: 0 })
    }

    /// A producer handle. Producer ids are not yet allocated: every handle
    /// carries id 0, so `producer_id` in events is not distinguishing.
    pub fn producer(&self) -> (r: Producer)
        ensures
            r.id == 0,
    {
        Producer::new(0)
    }

    /// A consumer handle with its private cursor at zero.
    pub fn consumer(&self) -> (r: Consumer)
        ensures
            r.cursor == 0,
    {
        Consumer::new()
    }

    /// Whether every slot of the ring is still Free.
    pub fn slots_are_free(&self) -> (r: bool)
        ensures
            r == forall|i: int|
                0 <= i < self.slots@.len() ==> (#[trigger] self.slots@[i]).state == SlotState::Free,
    {
        let mut i: usize = 0;
        while i < self.slots.len()
            invariant
                i <= self.slots@.len(),
                forall|j: int| 0 <= j < i ==> (#[trigger] self.slots@[j]).state == SlotState::Free,
            decreases self.slots@.len() - i,
        {
            if self.slots[i].state != SlotState::Free {
                return false;
            }
            i = i + 1;
        }
        true
    }
}

/// Slot-index order is sequence order: any two slots that have both been
/// sequenced carry sequence numbers in the same strict order as their
/// indices. In particular the assigned sequence numbers are all distinct.
pub proof fn lemma_sequence_order<T: Copy>(b: Buffer<T>, i: int, j: int)
    requires
        b.wf(),
        0 <= i < j < b.slots@.len(),
        b.slots@[i].state == SlotState::Sequenced,
        b.slots@[j].state == SlotState::Sequenced,
    ensures
        b.slots@[i].sequence < b.slots@[j].sequence,
{
}

/// Builds a `Buffer`, defaulting the one knob — capacity — to 1024.
pub struct BufferBuilder<T> {
    pub capacity: Option<usize>,
    pub _phantom: core::marker::PhantomData<T>,
}

impl<T: Copy> BufferBuilder<T> {
    /// The capacity `build` will use: the requested one, or 1024.
    pub open spec fn chosen_capacity(self) -> usize {
        match self.capacity {
            Some(c) => c,
            None => 1024,
        }
    }

    /// A builder with no capacity requested yet.
    pub fn new() -> (r: Self)
        ensures
            r.capacity is None,
    {
        BufferBuilder { capacity: None, _phantom: core::marker::PhantomData }
    }

    /// Request a capacity.
    pub fn capacity(self, capacity: usize) -> (r: Self)
        ensures
            r.capacity == Some(capacity),
    {
        BufferBuilder { capacity: Some(capacity), _phantom: core::marker::PhantomData }
    }

    /// Validate the requested capacity and build the buffer.
    pub fn build(self) -> (r: Result<Buffer<T>, BuildError>)
        ensures
            capacity_invalid(self.chosen_capacity()) ==> r == Err::<Buffer<T>, BuildError>(
                BuildError::InvalidCapacity,
            ),
            capacity_too_large(self.chosen_capacity()) ==> r == Err::<Buffer<T>, BuildError>(
                BuildError::TooLarge,
            ),
            valid_capacity(self.chosen_capacity()) ==> {
                &&& r matches Ok(b)
                &&& b.wf()
                &&& b.capacity == self.chosen_capacity()
                &&& b.mask == self.chosen_capacity() - 1
                &&& b.head == 0
                &&& forall|i: int|
                    0 <= i < self.chosen_capacity() ==> b.slots@[i] == initial_slot::<T>()
            },
    {
        let capacity = match self.capacity {
            Some(c) => c,
            None => 1024,
        };
        Buffer::new(capacity)
    }
}

impl<T: Copy> Default for BufferBuilder<T> {
    fn default() -> (r: Self)
        ensures
            r.capacity is None,
    {
        BufferBuilder::new()
    }
}

} // verus!
