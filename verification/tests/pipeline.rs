use azure_eventhub_vector_pipeline::consumer::Event;
use azure_eventhub_vector_pipeline::pipeline::{EventBatcher, ProcessingConfig};

fn ev(seq: i64) -> Event {
    Event { data: vec![seq as u8], partition_id: "0".to_string(), sequence_number: seq, offset: seq * 10 }
}

fn seqs(events: &[Event]) -> Vec<i64> {
    events.iter().map(|e| e.sequence_number).collect()
}

#[test]
fn processing_config_defaults() {
    let c = ProcessingConfig::default();
    assert_eq!((c.batch_size, c.batch_timeout_ms, c.worker_count, c.queue_size), (1000, 100, 4, 10000));
}

#[test]
fn batch_emitted_when_full() {
    let mut b = EventBatcher::new(3);
    assert!(b.push(ev(1)).is_none());
    assert!(b.push(ev(2)).is_none());
    assert_eq!(b.pending_len(), 2);
    let batch = b.push(ev(3)).expect("full batch");
    assert_eq!(seqs(&batch.events), vec![1, 2, 3]);
    assert_eq!(b.pending_len(), 0);
    assert!(b.push(ev(4)).is_none());
}

#[test]
fn flush_emits_pending_in_order() {
    let mut b = EventBatcher::new(10);
    assert!(b.flush().is_none());
    b.push(ev(5));
    b.push(ev(6));
    let batch = b.flush().expect("pending events");
    assert_eq!(seqs(&batch.events), vec![5, 6]);
    assert!(b.flush().is_none());
}

#[test]
fn zero_batch_size_emits_each_event() {
    let mut b = EventBatcher::new(0);
    let batch = b.push(ev(9)).expect("batch of one");
    assert_eq!(seqs(&batch.events), vec![9]);
}

#[test]
fn no_event_lost_or_reordered() {
    let mut b = EventBatcher::new(4);
    let mut out = Vec::new();
    for i in 0..10 {
        if let Some(batch) = b.push(ev(i)) {
            assert_eq!(batch.events.len(), 4);
            out.extend(batch.events);
        }
    }
    if let Some(batch) = b.flush() {
        out.extend(batch.events);
    }
    assert_eq!(seqs(&out), (0..10).collect::<Vec<i64>>());
}
