//! Checkpoints of partition progress, the in-memory checkpoint cache, and the
//! naming of checkpoint blobs.

use vstd::prelude::*;
use vstd::hash_map::StringHashMap;
use crate::retry::{make_backoff, BackoffPolicy, RetrySettings};
use crate::text::{contains_seq, str_contains};

verus! {

/// The position reached in one partition, and when it was recorded
/// (seconds since the Unix epoch).
#[derive(Debug)]
pub struct Checkpoint {
    pub partition_id: String,
    pub offset: i64,
    pub sequence_number: i64,
    pub updated_time: i64,
}

/// A checkpoint as plain values.
pub struct CheckpointView {
    pub partition_id: Seq<char>,
    pub offset: i64,
    pub sequence_number: i64,
    pub updated_time: i64,
}

impl View for Checkpoint {
    type V = CheckpointView;

    open spec fn view(&self) -> CheckpointView {
        CheckpointView {
            partition_id: self.partition_id@,
            offset: self.offset,
            sequence_number: self.sequence_number,
            updated_time: self.updated_time,
        }
    }
}

impl Clone for Checkpoint {
    fn clone(&self) -> (c: Self)
        ensures
            c@ == self@,
    {
        Checkpoint {
            partition_id: self.partition_id.clone(),
            offset: self.offset,
            sequence_number: self.sequence_number,
            updated_time: self.updated_time,
        }
    }
}

impl Checkpoint {
    /// The checkpoint of `partition_id` at `offset` / `sequence_number`, recorded at `updated_time`.
    pub fn new(partition_id: &str, offset: i64, sequence_number: i64, updated_time: i64) -> (c: Self)
        ensures
            c.partition_id@ == partition_id@,
            c.offset == offset,
            c.sequence_number == sequence_number,
            c.updated_time == updated_time,
    {
        Checkpoint { partition_id: partition_id.to_owned(), offset, sequence_number, updated_time }
    }
}


/// The name of the blob holding a partition's checkpoint:
/// `<event hub>/<partition>/checkpoint.json`.
pub open spec fn checkpoint_blob_name(event_hub_name: Seq<char>, partition_id: Seq<char>) -> Seq<char> {
    event_hub_name + "/"@ + partition_id + "/checkpoint.json"@
}

/// Why a checkpoint store could not be set up.
#[derive(Debug, PartialEq, Eq, Structural)]
pub enum CheckpointError {
    /// The storage account name is empty.
    EmptyStorageAccount,
    /// The container name is empty.
    EmptyContainerName,
}

impl CheckpointError {
    /// The human-readable message of the error.
    pub fn message(&self) -> (m: String)
        ensures
            self == CheckpointError::EmptyStorageAccount ==> m@ == "Storage account name cannot be empty"@,
            self == CheckpointError::EmptyContainerName ==> m@ == "Container name cannot be empty"@,
    {
        match self {
            CheckpointError::EmptyStorageAccount => String::from_str("Storage account name cannot be empty"),
            CheckpointError::EmptyContainerName => String::from_str("Container name cannot be empty"),
        }
    }
}

/// The first wait before retrying to create the checkpoint container (half a second).
pub const CONTAINER_RETRY_INITIAL_MS: u64 = 500;

/// The longest wait between attempts to create the checkpoint container (5 seconds).
pub const CONTAINER_RETRY_MAX_INTERVAL_MS: u64 = 5_000;

/// How long attempts to create the checkpoint container go on (30 seconds).
pub const CONTAINER_RETRY_MAX_ELAPSED_MS: u64 = 30_000;

/// The backoff policy that paces attempts to create the checkpoint container:
/// first wait half a second (the `backoff` crate's default), longest wait 5
/// seconds, 30 seconds in all.
pub fn container_retry_backoff() -> (p: BackoffPolicy)
    ensures
        p.spec_settings() == (RetrySettings {
            initial_interval_ms: CONTAINER_RETRY_INITIAL_MS,
            max_interval_ms: CONTAINER_RETRY_MAX_INTERVAL_MS,
            max_elapsed_time_ms: CONTAINER_RETRY_MAX_ELAPSED_MS,
        }),
        p.consultations() == 0,
{
    make_backoff(CONTAINER_RETRY_INITIAL_MS, CONTAINER_RETRY_MAX_INTERVAL_MS, CONTAINER_RETRY_MAX_ELAPSED_MS)
}

/// Whether a container-creation failure is permanent (an authorization failure,
/// which retrying cannot mend) rather than transient.
pub fn is_permanent_container_error(message: &str) -> (b: bool)
    ensures
        b == contains_seq(message@, "AuthorizationFailure"@),
{
    str_contains(message, "AuthorizationFailure")
}

/// Whether a container creation failed only because the container exists
/// already, so that it is ready for use.
pub fn is_container_already_present(message: &str) -> (b: bool)
    ensures
        b == contains_seq(message@, "ContainerAlreadyExists"@),
{
    str_contains(message, "ContainerAlreadyExists")
}

/// Whether a container lookup failed because the container does not exist.
pub fn is_container_not_found(message: &str) -> (b: bool)
    ensures
        b == contains_seq(message@, "ContainerNotFound"@),
{
    str_contains(message, "ContainerNotFound")
}

/// The checkpoints of one Event Hub's partitions: the in-memory cache, keyed by
/// partition id, and the naming of their blobs.
pub struct CheckpointStore {
    checkpoints: StringHashMap<Checkpoint>,
    event_hub_name: String,
}

/// A checkpoint store as plain values.
pub struct CheckpointStoreView {
    pub checkpoints: Map<Seq<char>, CheckpointView>,
    pub event_hub_name: Seq<char>,
}

impl CheckpointStoreView {
    /// The cached checkpoint of `partition_id`, if any.
    pub open spec fn lookup(self, partition_id: Seq<char>) -> Option<CheckpointView> {
        if self.checkpoints.contains_key(partition_id) {
            Some(self.checkpoints[partition_id])
        } else {
            None
        }
    }
}

/// The view of an optional checkpoint.
pub open spec fn checkpoint_option_view(c: Option<Checkpoint>) -> Option<CheckpointView> {
    match c {
        Some(c) => Some(c@),
        None => None,
    }
}

impl View for CheckpointStore {
    type V = CheckpointStoreView;

    closed spec fn view(&self) -> CheckpointStoreView {
        CheckpointStoreView {
            checkpoints: self.checkpoints@.map_values(|c: Checkpoint| c@),
            event_hub_name: self.event_hub_name@,
        }
    }
}

impl CheckpointStore {
    /// A store for `event_hub_name`'s checkpoints in `container_name` of
    /// `storage_account`, with an empty cache. An empty account name, then an
    /// empty container name, is refused.
    pub fn new(storage_account: &str, container_name: &str, event_hub_name: &str) -> (r: Result<Self, CheckpointError>)
        ensures
            storage_account@.len() == 0 ==> r == Err::<Self, CheckpointError>(CheckpointError::EmptyStorageAccount),
            storage_account@.len() != 0 && container_name@.len() == 0
                ==> r == Err::<Self, CheckpointError>(CheckpointError::EmptyContainerName),
            storage_account@.len() != 0 && container_name@.len() != 0 ==> (r matches Ok(s) && {
                &&& s@.checkpoints == Map::<Seq<char>, CheckpointView>::empty()
                &&& s@.event_hub_name == event_hub_name@
            }),
    {
        if storage_account.is_empty() {
            return Err(CheckpointError::EmptyStorageAccount);
        }
        if container_name.is_empty() {
            return Err(CheckpointError::EmptyContainerName);
        }
        let s = CheckpointStore { checkpoints: StringHashMap::new(), event_hub_name: event_hub_name.to_owned() };
        proof {
            assert(s@.checkpoints =~= Map::<Seq<char>, CheckpointView>::empty());
        }
        Ok(s)
    }

    /// The Event Hub whose checkpoints this store keeps.
    pub fn event_hub_name(&self) -> (n: &String)
        ensures
            n@ == self@.event_hub_name,
    {
        &self.event_hub_name
    }

    /// The name of the blob that holds `partition_id`'s checkpoint.
    pub fn blob_name(&self, partition_id: &str) -> (n: String)
        ensures
            n@ == checkpoint_blob_name(self@.event_hub_name, partition_id@),
    {
        let mut n = self.event_hub_name.clone();
        n.append("/");
        n.append(partition_id);
        n.append("/checkpoint.json");
        n
    }

    /// Records `partition_id`'s checkpoint at `offset` / `sequence_number`, taken
    /// at `updated_time`, in the cache (replacing an earlier one), and returns it
    /// for persisting.
    pub fn save_checkpoint(&mut self, partition_id: &str, offset: i64, sequence_number: i64, updated_time: i64) -> (c: Checkpoint)
        ensures
            c@ == (CheckpointView { partition_id: partition_id@, offset, sequence_number, updated_time }),
            final(self)@.checkpoints == old(self)@.checkpoints.insert(partition_id@, c@),
            final(self)@.event_hub_name == old(self)@.event_hub_name,
    {
        let c = Checkpoint::new(partition_id, offset, sequence_number, updated_time);
        self.checkpoints.insert(partition_id.to_owned(), c.clone());
        proof {
            assert(self@.checkpoints =~= old(self)@.checkpoints.insert(partition_id@, c@));
        }
        c
    }

    /// The cached checkpoint of `partition_id`, if any.
    pub fn cached_checkpoint(&self, partition_id: &str) -> (r: Option<Checkpoint>)
        ensures
            checkpoint_option_view(r) == self@.lookup(partition_id@),
    {
        match self.checkpoints.get(partition_id) {
            Some(c) => Some(c.clone()),
            None => None,
        }
    }

    /// Caches a checkpoint read back from storage under `partition_id`.
    pub fn cache_loaded(&mut self, partition_id: &str, checkpoint: &Checkpoint)
        ensures
            final(self)@.checkpoints == old(self)@.checkpoints.insert(partition_id@, checkpoint@),
            final(self)@.event_hub_name == old(self)@.event_hub_name,
    {
        self.checkpoints.insert(partition_id.to_owned(), checkpoint.clone());
        proof {
            assert(self@.checkpoints =~= old(self)@.checkpoints.insert(partition_id@, checkpoint@));
        }
    }
}

/// A read after a save gives back what was saved, and leaves every other
/// partition's checkpoint as it was: `before` and `after` are the store around
/// a `save_checkpoint` of `partition_id` (or a `cache_loaded` of it) that
/// recorded `saved`.
pub proof fn lemma_read_after_save(
    before: CheckpointStoreView,
    after: CheckpointStoreView,
    partition_id: Seq<char>,
    saved: CheckpointView,
    other: Seq<char>,
)
    requires
        after.checkpoints == before.checkpoints.insert(partition_id, saved),
        after.event_hub_name == before.event_hub_name,
    ensures
        after.lookup(partition_id) == Some(saved),
        other != partition_id ==> after.lookup(other) == before.lookup(other),
        checkpoint_blob_name(after.event_hub_name, partition_id) == checkpoint_blob_name(before.event_hub_name, partition_id),
{
}

/// Distinct partitions of one Event Hub have distinct checkpoint blobs.
pub proof fn lemma_blob_names_distinct(event_hub_name: Seq<char>, p1: Seq<char>, p2: Seq<char>)
    requires
        p1 != p2,
    ensures
        checkpoint_blob_name(event_hub_name, p1) != checkpoint_blob_name(event_hub_name, p2),
{
    let a = checkpoint_blob_name(event_hub_name, p1);
    let b = checkpoint_blob_name(event_hub_name, p2);
    let pre = event_hub_name + "/"@;
    let suf = "/checkpoint.json"@;
    if a == b {
        assert(a =~= pre + p1 + suf);
        assert(b =~= pre + p2 + suf);
        assert(p1.len() == p2.len());
        assert(p1 =~= a.subrange(pre.len() as int, (pre.len() + p1.len()) as int));
        assert(p2 =~= b.subrange(pre.len() as int, (pre.len() + p2.len()) as int));
    }
}

} // verus!
