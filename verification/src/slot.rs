use vstd::prelude::*;

verus! {

/// The four-valued lifecycle discriminant of a slot. Every hand-off in the
/// log pivots on this state, and a slot only ever moves forward through
/// Free -> Claimed -> Published -> Sequenced.
#[derive(Debug, Clone, Copy, PartialEq, Eq, Structural)]
pub enum SlotState {
    Free,
    Claimed,
    Published,
    Sequenced,
}

/// Position of a state within the lifecycle. A slot's rank never decreases:
/// see the `state_rank` clauses on every operation that touches a slot.
pub open spec fn state_rank(s: SlotState) -> int {
    match s {
        SlotState::Free => 0,
        SlotState::Claimed => 1,
        SlotState::Published => 2,
        SlotState::Sequenced => 3,
    }
}

/// One cell of the ring buffer: the lifecycle state, the sequence number
/// assigned by the sequencer (meaningful only once the slot is Sequenced),
/// the timestamp captured at publish, the id of the publishing producer, and
/// the payload itself. The payload starts out absent and is written exactly
/// once, when the slot is published.
#[derive(Debug, Clone, Copy)]
pub struct Slot<T> {
    pub state: SlotState,
    pub producer_id: u8,
    pub sequence: u64,
    pub timestamp: u64,
    pub payload: Option<T>,
}

/// The value every slot holds when the buffer is created: Free, unstamped,
/// with no payload.
pub open spec fn initial_slot<T>() -> Slot<T> {
    Slot {
        state: SlotState::Free,
        producer_id: 0,
        sequence: 0,
        timestamp: 0,
        payload: None,
    }
}

impl<T: Copy> Slot<T> {
    /// A fresh slot in state Free.
    pub fn new() -> (r: Self)
        ensures
            r == initial_slot::<T>(),
    {
        Slot {
            state: SlotState::Free,
            producer_id: 0,
            sequence: 0,
            timestamp: 0,
            payload: None,
        }
    }
}

impl<T: Copy> Default for Slot<T> {
    fn default() -> (r: Self)
        ensures
            r == initial_slot::<T>(),
    {
        Slot::new()
    }
}

} // verus!
