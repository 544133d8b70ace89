//! A multi-producer / multi-consumer in-memory event log with a sequencer
//! that assigns a total order to published events.
//!
//! The core is a ring buffer of slots, each moving through the one-way
//! lifecycle Free -> Claimed -> Published -> Sequenced. Producers claim the
//! slot at the head index and publish a payload into it; the sequencer walks
//! the slots in index order and stamps each published slot with the next
//! sequence number; consumers replay the sequenced slots from their own
//! cursors, any number of times, always observing the same stream.
//!
//! The buffer is one-shot: a slot that has been sequenced is never returned
//! to the free pool, so at most `capacity` events can ever be published.

mod buffer;
mod consumer;
mod error;
mod producer;
mod sequencer;
mod slot;

pub use buffer::{
    capacity_invalid, capacity_too_large, lemma_sequence_order, valid_capacity, Buffer,
    BufferBuilder, MAX_CAPACITY,
};
pub use consumer::{
    lemma_observes_all_pushed, lemma_replay_deterministic, read_event, readable, replay_from,
    Consumer, ConsumerIter, Event,
};
pub use error::{BuildError, PushError};
pub use producer::Producer;
pub use sequencer::{promotable_through, sequencer_loop};
pub use slot::{initial_slot, state_rank, Slot, SlotState};
