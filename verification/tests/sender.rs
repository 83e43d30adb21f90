use azure_eventhub_vector_pipeline::sender::{
    frame_batch, BatchDelivery, DeliveryAction, DeliveryPhase, VectorConfig, VectorSender,
};
use azure_eventhub_vector_pipeline::retry::RetrySettings;
use std::time::Duration;

#[test]
fn test_sender_connection() {
    let config = VectorConfig::default();
    let _sender = VectorSender::new(config);
    // Structural test only
}

#[test]
fn vector_config_defaults() {
    let c = VectorConfig::default();
    assert_eq!(c.host, "localhost");
    assert_eq!(c.port, 9000);
    assert_eq!(c.connection_timeout_ms, 5000);
    assert_eq!(c.write_timeout_ms, 5000);
    assert_eq!(c.retry_initial_interval_ms, 100);
    assert_eq!(c.retry_max_interval_ms, 10000);
    assert_eq!(c.retry_max_elapsed_time_ms, 300000);
}

#[test]
fn address_joins_host_and_port() {
    assert_eq!(VectorConfig::default().address(), "localhost:9000");
    let mut c = VectorConfig::default();
    c.host = "10.0.0.7".to_string();
    c.port = 0;
    assert_eq!(VectorSender::new(c).address(), "10.0.0.7:0");
    let mut c = VectorConfig::default();
    c.port = 65535;
    assert_eq!(c.address(), "localhost:65535");
}

#[test]
fn frame_appends_newline() {
    assert_eq!(frame_batch(b"[{\"a\":1}]".to_vec()), b"[{\"a\":1}]\n".to_vec());
    assert_eq!(frame_batch(Vec::new()), b"\n".to_vec());
}

#[test]
fn delivery_succeeds_on_first_send() {
    let sender = VectorSender::new(VectorConfig::default());
    let mut d = sender.start_delivery();
    assert_eq!(d.phase(), DeliveryPhase::Sending);
    assert!(matches!(d.on_send_result(true), DeliveryAction::Done));
    assert_eq!(d.phase(), DeliveryPhase::Delivered);
    assert_eq!(d.retry_count(), 0);
}

#[test]
fn failure_with_wait_retries() {
    let mut d = BatchDelivery::new(&VectorConfig::default());
    match d.record_failure(Some(Duration::from_millis(150))) {
        DeliveryAction::RetryAfter { delay, attempt } => {
            assert_eq!(delay, Duration::from_millis(150));
            assert_eq!(attempt, 1);
        }
        other => panic!("unexpected {:?}", other),
    }
    assert_eq!(d.phase(), DeliveryPhase::Waiting);
    d.resume();
    assert_eq!(d.phase(), DeliveryPhase::Sending);
    match d.record_failure(Some(Duration::from_millis(300))) {
        DeliveryAction::RetryAfter { attempt, .. } => assert_eq!(attempt, 2),
        other => panic!("unexpected {:?}", other),
    }
}

#[test]
fn failure_without_wait_gives_up() {
    let mut d = BatchDelivery::new(&VectorConfig::default());
    assert!(matches!(d.record_failure(None), DeliveryAction::GiveUp));
    assert_eq!(d.phase(), DeliveryPhase::Abandoned);
    assert_eq!(d.retry_count(), 1);
}

#[test]
fn failed_send_consults_backoff() {
    let mut d = BatchDelivery::new(&VectorConfig::default());
    // A fresh policy has time left, so the first failure is retried.
    match d.on_send_result(false) {
        DeliveryAction::RetryAfter { attempt, .. } => assert_eq!(attempt, 1),
        other => panic!("unexpected {:?}", other),
    }
    assert_eq!(d.retry_count(), 1);
}

#[test]
fn zero_elapsed_budget_gives_up() {
    let mut c = VectorConfig::default();
    c.retry_max_elapsed_time_ms = 0;
    let mut d = BatchDelivery::new(&c);
    // The first randomized wait exceeds an elapsed-time budget of zero.
    assert!(matches!(d.on_send_result(false), DeliveryAction::GiveUp));
    assert_eq!(d.phase(), DeliveryPhase::Abandoned);
}

#[test]
fn delivery_uses_configured_retry_settings() {
    let mut c = VectorConfig::default();
    c.retry_initial_interval_ms = 250;
    c.retry_max_interval_ms = 4000;
    c.retry_max_elapsed_time_ms = 60000;
    let d = VectorSender::new(c).start_delivery();
    assert_eq!(
        d.retry_settings(),
        RetrySettings { initial_interval_ms: 250, max_interval_ms: 4000, max_elapsed_time_ms: 60000 }
    );
    let d = BatchDelivery::new(&VectorConfig::default());
    assert_eq!(
        d.retry_settings(),
        RetrySettings { initial_interval_ms: 100, max_interval_ms: 10000, max_elapsed_time_ms: 300000 }
    );
}

#[test]
fn first_wait_follows_initial_interval() {
    let mut c = VectorConfig::default();
    c.retry_initial_interval_ms = 20;
    c.retry_max_interval_ms = 1000;
    c.retry_max_elapsed_time_ms = 60000;
    let mut d = BatchDelivery::new(&c);
    match d.on_send_result(false) {
        // randomized within 50% around the 20 ms initial interval
        DeliveryAction::RetryAfter { delay, attempt } => {
            assert_eq!(attempt, 1);
            assert!(delay <= Duration::from_millis(31));
        }
        other => panic!("unexpected {:?}", other),
    }
}

#[test]
fn retry_delay_is_the_policy_answer() {
    let mut d = BatchDelivery::new(&VectorConfig::default());
    match d.on_send_result(false) {
        DeliveryAction::RetryAfter { delay, .. } => {
            // default first wait 100 ms, randomized by half either way
            assert!(delay >= Duration::from_millis(50));
            assert!(delay <= Duration::from_millis(151));
        }
        other => panic!("unexpected {:?}", other),
    }
}
