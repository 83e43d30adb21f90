use azure_eventhub_vector_pipeline::checkpoints::Checkpoint;
use azure_eventhub_vector_pipeline::consumer::{
    start_position, ConsumerConfig, ForwardAction, PartitionConsumer, ReceiveAction, StartPosition,
    StreamItem, CHECKPOINT_INTERVAL_MS, STREAM_ERROR_PAUSE_MS,
};

#[test]
fn consumer_config_defaults() {
    let c = ConsumerConfig::default();
    assert_eq!(c.max_batch_size, 1000);
    assert_eq!(c.partition_count, 4);
    assert_eq!(c.buffer_size, 10000);
}

#[test]
fn partition_ids_are_decimal_indices() {
    let c = ConsumerConfig::default();
    assert_eq!(c.partition_ids(), vec!["0", "1", "2", "3"]);
    let c = ConsumerConfig { max_batch_size: 1, partition_count: 0, buffer_size: 1 };
    assert!(c.partition_ids().is_empty());
    let c = ConsumerConfig { max_batch_size: 1, partition_count: 12, buffer_size: 1 };
    let ids = c.partition_ids();
    assert_eq!(ids.len(), 12);
    assert_eq!(ids[10], "10");
    assert_eq!(ids[11], "11");
}

#[test]
fn start_from_checkpoint_or_earliest() {
    let cp = Checkpoint::new("2", 4096, 17, 1_700_000_000);
    assert_eq!(start_position(Some(&cp)), StartPosition::FromOffset { offset: 4096, inclusive: true });
    assert_eq!(start_position(None), StartPosition::Earliest);
}

fn received(body: Option<&[u8]>, seq: i64, offset: Option<i64>) -> StreamItem {
    StreamItem::Received { body: body.map(|b| b.to_vec()), sequence_number: seq, offset }
}

#[test]
fn readable_event_is_forwarded_with_partition() {
    let mut c = PartitionConsumer::new("3", false, 0);
    match c.on_item(received(Some(b"hello"), 42, Some(1000))) {
        ReceiveAction::Forward(e) => {
            assert_eq!(e.data, b"hello".to_vec());
            assert_eq!(e.partition_id, "3");
            assert_eq!(e.sequence_number, 42);
            assert_eq!(e.offset, 1000);
        }
        other => panic!("unexpected {:?}", other),
    }
    assert!(c.is_forwarding());
}

#[test]
fn missing_offset_defaults_to_zero() {
    let mut c = PartitionConsumer::new("0", false, 0);
    match c.on_item(received(Some(b"x"), 1, None)) {
        ReceiveAction::Forward(e) => assert_eq!(e.offset, 0),
        other => panic!("unexpected {:?}", other),
    }
}

#[test]
fn unreadable_body_is_skipped_and_error_pauses() {
    let mut c = PartitionConsumer::new("0", true, 0);
    assert!(matches!(c.on_item(received(None, 5, Some(5))), ReceiveAction::Skip));
    assert!(!c.is_forwarding());
    match c.on_item(StreamItem::Failed) {
        ReceiveAction::Pause { millis } => assert_eq!(millis, STREAM_ERROR_PAUSE_MS),
        other => panic!("unexpected {:?}", other),
    }
    assert_eq!(STREAM_ERROR_PAUSE_MS, 1000);
}

#[test]
fn failed_delivery_stops_the_consumer() {
    let mut c = PartitionConsumer::new("1", true, 0);
    let _ = c.on_item(received(Some(b"a"), 1, Some(1)));
    assert!(matches!(c.on_forwarded(false, 100_000), ForwardAction::Stop));
    assert!(c.is_stopped());
    assert!(matches!(c.on_item(received(Some(b"b"), 2, Some(2))), ReceiveAction::Stop));
}

#[test]
fn checkpoint_every_thirty_seconds() {
    assert_eq!(CHECKPOINT_INTERVAL_MS, 30_000);
    let mut c = PartitionConsumer::new("7", true, 1_000);
    let _ = c.on_item(received(Some(b"a"), 10, Some(100)));
    // 29.999 s after the start: not yet
    assert!(matches!(c.on_forwarded(true, 30_999), ForwardAction::Continue));
    let _ = c.on_item(received(Some(b"b"), 11, Some(200)));
    // 30 s after the start: save the position of the event just delivered
    match c.on_forwarded(true, 31_000) {
        ForwardAction::SaveCheckpoint { partition_id, offset, sequence_number } => {
            assert_eq!(partition_id, "7");
            assert_eq!(offset, 200);
            assert_eq!(sequence_number, 11);
        }
        other => panic!("unexpected {:?}", other),
    }
    let _ = c.on_item(received(Some(b"c"), 12, Some(300)));
    // the interval restarts from the last save
    assert!(matches!(c.on_forwarded(true, 60_000), ForwardAction::Continue));
    let _ = c.on_item(received(Some(b"d"), 13, Some(400)));
    assert!(matches!(c.on_forwarded(true, 61_000), ForwardAction::SaveCheckpoint { .. }));
}

#[test]
fn no_checkpoint_without_store() {
    let mut c = PartitionConsumer::new("0", false, 0);
    let _ = c.on_item(received(Some(b"a"), 1, Some(1)));
    assert!(matches!(c.on_forwarded(true, u64::MAX), ForwardAction::Continue));
}

#[test]
fn clock_going_back_is_no_elapsed_time() {
    let mut c = PartitionConsumer::new("0", true, 100_000);
    let _ = c.on_item(received(Some(b"a"), 1, Some(1)));
    assert!(matches!(c.on_forwarded(true, 0), ForwardAction::Continue));
}

#[test]
fn partition_ids_are_distinct() {
    let ids = ConsumerConfig { max_batch_size: 1, partition_count: 32, buffer_size: 1 }.partition_ids();
    let mut sorted = ids.clone();
    sorted.sort();
    sorted.dedup();
    assert_eq!(sorted.len(), 32);
}
