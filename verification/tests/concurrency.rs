use lftes::{sequencer_loop, Buffer, Event};
use std::collections::HashSet;

#[test]
fn multiple_producers_no_lost_events() {
    const NUM_PRODUCERS: usize = 4;
    const EVENTS_PER_PRODUCER: usize = 50;
    const TOTAL_EVENTS: usize = NUM_PRODUCERS * EVENTS_PER_PRODUCER;

    let mut buffer = Buffer::<u64>::builder().capacity(512).build().unwrap();

    // Four producers, each pushing its own range of payloads
    for producer_id in 0..NUM_PRODUCERS {
        let producer = buffer.producer();
        for i in 0..EVENTS_PER_PRODUCER {
            let value = (producer_id * 1000 + i) as u64;
            producer.push(&mut buffer, value, 1).unwrap();
        }
    }

    sequencer_loop(&mut buffer);

    // Consume all events
    let mut consumer = buffer.consumer();
    let mut events: Vec<Event<u64>> = vec![];
    for _ in 0..TOTAL_EVENTS {
        if let Some(event) = consumer.try_next(&buffer) {
            events.push(event);
        }
    }

    // Verify no events lost
    assert_eq!(
        events.len(),
        TOTAL_EVENTS,
        "Should receive all {} events",
        TOTAL_EVENTS
    );

    // Verify all payloads are unique
    let payloads: HashSet<u64> = events.iter().map(|e| e.payload).collect();
    assert_eq!(
        payloads.len(),
        TOTAL_EVENTS,
        "All events should have unique payloads"
    );

    // Verify sequence numbers are contiguous
    for (i, event) in events.iter().enumerate() {
        assert_eq!(
            event.sequence, i as u64,
            "Sequence number should be contiguous"
        );
    }
}

#[test]
fn single_producer_single_consumer_ten_events() {
    let mut buffer = Buffer::<u64>::builder().capacity(16).build().unwrap();

    let producer = buffer.producer();
    for i in 0..10u64 {
        producer.push(&mut buffer, i * 100, i + 1).unwrap();
    }

    sequencer_loop(&mut buffer);

    let mut consumer = buffer.consumer();
    for i in 0..10u64 {
        let event = consumer.try_next(&buffer).unwrap();
        assert_eq!(event.sequence, i);
        assert_eq!(event.payload, i * 100);
    }
    assert!(consumer.try_next(&buffer).is_none());
}

#[test]
fn sequential_push_and_consume() {
    const BUFFER_SIZE: usize = 64;
    const NUM_EVENTS: usize = 32; // Well under capacity

    let mut buffer = Buffer::<u64>::builder().capacity(BUFFER_SIZE).build().unwrap();

    // Push events
    let producer = buffer.producer();
    for i in 0..NUM_EVENTS {
        producer.push(&mut buffer, i as u64, 1).unwrap();
    }

    sequencer_loop(&mut buffer);

    // Consume events
    let mut consumer = buffer.consumer();
    let mut consumed = 0;
    while let Some(_event) = consumer.try_next(&buffer) {
        consumed += 1;
        if consumed >= NUM_EVENTS {
            break;
        }
    }

    assert_eq!(consumed, NUM_EVENTS, "All events should be consumed");
}
