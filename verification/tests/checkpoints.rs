use backoff::backoff::Backoff;
use std::time::Duration;
use azure_eventhub_vector_pipeline::checkpoints::{
    container_retry_backoff, is_container_already_present, is_container_not_found, is_permanent_container_error, Checkpoint, CheckpointError,
    CheckpointStore,
};

#[test]
fn empty_account_is_refused_first() {
    assert_eq!(CheckpointStore::new("", "", "hub").err(), Some(CheckpointError::EmptyStorageAccount));
    assert_eq!(CheckpointStore::new("", "c", "hub").err(), Some(CheckpointError::EmptyStorageAccount));
    assert_eq!(CheckpointStore::new("acct", "", "hub").err(), Some(CheckpointError::EmptyContainerName));
    assert_eq!(CheckpointError::EmptyStorageAccount.message(), "Storage account name cannot be empty");
    assert_eq!(CheckpointError::EmptyContainerName.message(), "Container name cannot be empty");
}

#[test]
fn new_store_is_empty() {
    let s = CheckpointStore::new("chkpnt", "chkpnt-container", "eventhub-1").unwrap();
    assert_eq!(s.event_hub_name(), "eventhub-1");
    assert!(s.cached_checkpoint("0").is_none());
}

#[test]
fn blob_names() {
    let s = CheckpointStore::new("chkpnt", "chkpnt-container", "eventhub-1").unwrap();
    assert_eq!(s.blob_name("0"), "eventhub-1/0/checkpoint.json");
    assert_eq!(s.blob_name("12"), "eventhub-1/12/checkpoint.json");
    assert_ne!(s.blob_name("1"), s.blob_name("11"));
}

#[test]
fn read_after_save() {
    let mut s = CheckpointStore::new("a", "b", "hub").unwrap();
    let saved = s.save_checkpoint("3", 500, 9, 1_700_000_123);
    assert_eq!(saved.partition_id, "3");
    assert_eq!((saved.offset, saved.sequence_number, saved.updated_time), (500, 9, 1_700_000_123));
    let got = s.cached_checkpoint("3").unwrap();
    assert_eq!(got.partition_id, "3");
    assert_eq!((got.offset, got.sequence_number, got.updated_time), (500, 9, 1_700_000_123));
    assert!(s.cached_checkpoint("4").is_none());
    // a later save replaces the earlier one
    s.save_checkpoint("3", 800, 12, 1_700_000_200);
    assert_eq!(s.cached_checkpoint("3").unwrap().offset, 800);
}

#[test]
fn loaded_checkpoint_is_cached_under_requested_partition() {
    let mut s = CheckpointStore::new("a", "b", "hub").unwrap();
    let loaded = Checkpoint::new("5", 70, 3, 10);
    s.cache_loaded("5", &loaded);
    let got = s.cached_checkpoint("5").unwrap();
    assert_eq!((got.offset, got.sequence_number, got.updated_time), (70, 3, 10));
}

#[test]
fn container_error_classification() {
    assert!(is_permanent_container_error("403 AuthorizationFailure: not allowed"));
    assert!(!is_permanent_container_error("500 InternalError"));
    assert!(!is_permanent_container_error("Authorization"));
    assert!(is_container_not_found("404 ContainerNotFound"));
    assert!(is_container_already_present("409 ContainerAlreadyExists: The specified container already exists."));
    assert!(!is_container_already_present("409 Conflict"));
    assert!(!is_container_not_found(""));
}

#[test]
fn container_retry_policy_settings() {
    let settings = container_retry_backoff().settings();
    assert_eq!(
        (settings.initial_interval_ms, settings.max_interval_ms, settings.max_elapsed_time_ms),
        (500, 5000, 30000)
    );
    let mut policy = container_retry_backoff().into_inner();
    assert_eq!(policy.initial_interval, Duration::from_millis(500));
    assert_eq!(policy.max_interval, Duration::from_secs(5));
    assert_eq!(policy.max_elapsed_time, Some(Duration::from_secs(30)));
    let first = policy.next_backoff().expect("time is left");
    assert!(first <= Duration::from_millis(751));
}
