use lftes::{sequencer_loop, Buffer};

#[test]
fn consumer_reads_sequenced_slots() {
    let mut buffer = Buffer::<u64>::builder().capacity(16).build().unwrap();

    // Publish one event and let the sequencer stamp it
    let producer = buffer.producer();
    producer.push(&mut buffer, 42, 1000).unwrap();
    sequencer_loop(&mut buffer);

    let mut consumer = buffer.consumer();
    let event = consumer.try_next(&buffer);

    assert!(event.is_some());
    let event = event.unwrap();
    assert_eq!(event.sequence, 0);
    assert_eq!(event.payload, 42);
    assert_eq!(event.timestamp, 1000);
}

#[test]
fn consumer_returns_none_for_unsequenced() {
    let buffer = Buffer::<u64>::builder().capacity(16).build().unwrap();
    let mut consumer = buffer.consumer();

    // No slots are sequenced yet
    let event = consumer.try_next(&buffer);
    assert!(event.is_none());
}

#[test]
fn consumer_advances_cursor() {
    let mut buffer = Buffer::<u64>::builder().capacity(16).build().unwrap();

    // Publish and sequence two events
    let producer = buffer.producer();
    for i in 0..2u64 {
        producer.push(&mut buffer, 100 + i, 1000 + i).unwrap();
    }
    sequencer_loop(&mut buffer);

    let mut consumer = buffer.consumer();

    // Read first event
    let event1 = consumer.try_next(&buffer).unwrap();
    assert_eq!(event1.sequence, 0);
    assert_eq!(event1.payload, 100);

    // Read second event
    let event2 = consumer.try_next(&buffer).unwrap();
    assert_eq!(event2.sequence, 1);
    assert_eq!(event2.payload, 101);

    // No more events
    assert!(consumer.try_next(&buffer).is_none());
}

#[test]
fn published_but_unsequenced_yields_nothing() {
    let mut buffer = Buffer::<u64>::builder().capacity(16).build().unwrap();
    let producer = buffer.producer();
    producer.push(&mut buffer, 5, 1).unwrap();

    // the sequencer has not run: nothing is readable yet
    let mut consumer = buffer.consumer();
    assert!(consumer.try_next(&buffer).is_none());

    sequencer_loop(&mut buffer);
    assert_eq!(consumer.try_next(&buffer).unwrap().payload, 5);
}

#[test]
fn iterator_view_walks_the_stream() {
    let mut buffer = Buffer::<u64>::builder().capacity(8).build().unwrap();
    let producer = buffer.producer();
    for i in 0..3u64 {
        producer.push(&mut buffer, i * 10, i + 1).unwrap();
    }
    sequencer_loop(&mut buffer);

    let mut iter = buffer.consumer().iter();
    assert_eq!(iter.next(&buffer).unwrap().payload, 0);
    assert_eq!(iter.next(&buffer).unwrap().payload, 10);
    assert_eq!(iter.next(&buffer).unwrap().payload, 20);
    assert!(iter.next(&buffer).is_none());

    let consumer = iter.into_consumer();
    assert_eq!(consumer.cursor, 3);
}
