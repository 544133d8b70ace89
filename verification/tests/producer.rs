use lftes::{Buffer, PushError, SlotState};

#[test]
fn single_producer_can_push() {
    let mut buffer = Buffer::<u64>::builder().capacity(16).build().unwrap();
    let producer = buffer.producer();

    let result = producer.push(&mut buffer, 42, 1);
    assert!(result.is_ok());
}

#[test]
fn push_transitions_slot_to_published() {
    let mut buffer = Buffer::<u64>::builder().capacity(16).build().unwrap();
    let producer = buffer.producer();

    producer.push(&mut buffer, 42, 1).unwrap();

    // Check that slot 0 is now in Published state
    assert_eq!(buffer.slots[0].state, SlotState::Published);
}

#[test]
fn timestamp_captured_on_publish() {
    let mut buffer = Buffer::<u64>::builder().capacity(16).build().unwrap();
    let producer = buffer.producer();

    producer.push(&mut buffer, 42, 1000).unwrap();

    // Check that timestamp is non-zero
    let ts = buffer.slots[0].timestamp;
    assert!(ts > 0, "Timestamp should be captured");
}

#[test]
fn push_stores_payload_and_producer_id() {
    let mut buffer = Buffer::<u64>::builder().capacity(16).build().unwrap();
    let producer = buffer.producer();

    producer.push(&mut buffer, 42, 1000).unwrap();

    assert_eq!(buffer.slots[0].payload, Some(42));
    assert_eq!(buffer.slots[0].producer_id, 0);
    assert_eq!(buffer.head, 1);
}

#[test]
fn push_on_full_buffer_reports_buffer_full() {
    let mut buffer = Buffer::<u64>::builder().capacity(2).build().unwrap();
    let producer = buffer.producer();

    assert!(producer.push(&mut buffer, 10, 1).is_ok());
    assert!(producer.push(&mut buffer, 20, 2).is_ok());

    lftes::sequencer_loop(&mut buffer);

    let mut consumer = buffer.consumer();
    assert_eq!(consumer.try_next(&buffer).unwrap().payload, 10);
    assert_eq!(consumer.try_next(&buffer).unwrap().payload, 20);

    // The buffer is one-shot: with every slot used up, a further push
    // reports BufferFull no matter how often the caller retries.
    assert_eq!(
        producer.push(&mut buffer, 30, 3).unwrap_err(),
        PushError::BufferFull
    );
    assert_eq!(
        producer.push(&mut buffer, 30, 4).unwrap_err(),
        PushError::BufferFull
    );
    assert_eq!(PushError::BufferFull.message(), "Buffer is full");
    assert_eq!(PushError::Shutdown.message(), "Buffer is shutting down");
}

#[test]
fn claim_then_publish_fills_the_claimed_slot() {
    let mut buffer = Buffer::<u64>::builder().capacity(4).build().unwrap();
    let producer = buffer.producer();

    let idx = producer.claim(&mut buffer).unwrap();
    assert_eq!(idx, 0);
    assert_eq!(buffer.slots[0].state, SlotState::Claimed);
    assert_eq!(buffer.head, 1);

    producer.publish(&mut buffer, idx, 7, 99);
    assert_eq!(buffer.slots[0].state, SlotState::Published);
    assert_eq!(buffer.slots[0].payload, Some(7));
    assert_eq!(buffer.slots[0].timestamp, 99);
}
