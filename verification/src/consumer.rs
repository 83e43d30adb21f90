//! Consumer settings, the events handed downstream, and the per-partition
//! consumer: the decisions taken for each item of a partition's event stream.

use vstd::prelude::*;
use crate::checkpoints::Checkpoint;
use crate::text::{decimal, decimal_string, lemma_decimal_injective};

verus! {

/// How often, at most, a partition's position is checkpointed (30 seconds).
pub const CHECKPOINT_INTERVAL_MS: u64 = 30_000;

/// How long a partition consumer pauses after the stream reports an error (1 second).
pub const STREAM_ERROR_PAUSE_MS: u64 = 1_000;

/// Settings of an Event Hub consumer.
#[derive(Clone, Debug)]
pub struct ConsumerConfig {
    pub max_batch_size: usize,
    pub partition_count: usize,
    pub buffer_size: usize,
}

impl Default for ConsumerConfig {
    fn default() -> (c: Self)
        ensures
            c.max_batch_size == 1000,
            c.partition_count == 4,
            c.buffer_size == 10000,
    {
        ConsumerConfig { max_batch_size: 1000, partition_count: 4, buffer_size: 10000 }
    }
}

impl ConsumerConfig {
    /// The partition ids to consume: `"0"`, `"1"`, ... up to `partition_count - 1`.
    pub fn partition_ids(&self) -> (ids: Vec<String>)
        ensures
            ids.len() == self.partition_count,
            forall|i: int| 0 <= i < ids.len() ==> (#[trigger] ids@[i])@ == decimal(i as nat),
    {
        let n: usize = self.partition_count;
        let mut ids: Vec<String> = Vec::new();
        let mut i: usize = 0;
        while i < n
            invariant
                i <= n,
                ids.len() == i,
                forall|k: int| 0 <= k < i ==> (#[trigger] ids@[k])@ == decimal(k as nat),
            decreases n - i,
        {
            ids.push(decimal_string(i as u64));
            i = i + 1;
        }
        ids
    }
}

/// One event read from a partition, as handed downstream.
#[derive(Clone, Debug)]
pub struct Event {
    pub data: Vec<u8>,
    pub partition_id: String,
    pub sequence_number: i64,
    pub offset: i64,
}

/// An event as plain values.
pub struct EventView {
    pub data: Seq<u8>,
    pub partition_id: Seq<char>,
    pub sequence_number: i64,
    pub offset: i64,
}

impl View for Event {
    type V = EventView;

    open spec fn view(&self) -> EventView {
        EventView {
            data: self.data@,
            partition_id: self.partition_id@,
            sequence_number: self.sequence_number,
            offset: self.offset,
        }
    }
}

/// Where reading a partition starts.
#[derive(Clone, Copy, Debug, PartialEq, Eq, Structural)]
pub enum StartPosition {
    /// The earliest event still retained.
    Earliest,
    /// The event at `offset`, included when `inclusive`.
    FromOffset { offset: i64, inclusive: bool },
}

/// The start position for a partition: just at the checkpointed offset (inclusive)
/// when a checkpoint was loaded, otherwise the earliest event.
pub fn start_position(checkpoint: Option<&Checkpoint>) -> (p: StartPosition)
    ensures
        match checkpoint {
            Some(c) => p == (StartPosition::FromOffset { offset: c.offset, inclusive: true }),
            None => p == StartPosition::Earliest,
        },
{
    match checkpoint {
        Some(c) => StartPosition::FromOffset { offset: c.offset, inclusive: true },
        None => StartPosition::Earliest,
    }
}

/// An item of a partition's event stream: an event (whose body may have been
/// unreadable) or a stream error.
pub enum StreamItem {
    Received { body: Option<Vec<u8>>, sequence_number: i64, offset: Option<i64> },
    Failed,
}

/// A stream item as plain values.
pub enum StreamItemView {
    Received { body: Option<Seq<u8>>, sequence_number: i64, offset: Option<i64> },
    Failed,
}

impl View for StreamItem {
    type V = StreamItemView;

    open spec fn view(&self) -> StreamItemView {
        match self {
            StreamItem::Received { body, sequence_number, offset } => StreamItemView::Received {
                body: match body {
                    Some(b) => Some(b@),
                    None => None,
                },
                sequence_number: *sequence_number,
                offset: *offset,
            },
            StreamItem::Failed => StreamItemView::Failed,
        }
    }
}

/// Where a partition consumer is in its loop.
#[derive(Clone, Copy, Debug, PartialEq, Eq, Structural)]
pub enum ConsumerPhase {
    /// Waiting for the next stream item.
    Receiving,
    /// An event at `offset` / `sequence_number` was handed out and awaits delivery.
    Forwarding { offset: i64, sequence_number: i64 },
    /// Delivery failed: the consumer has stopped.
    Stopped,
}

/// What to do with a stream item.
#[derive(Debug)]
pub enum ReceiveAction {
    /// Deliver this event downstream, then report with `on_forwarded`.
    Forward(Event),
    /// The event's body could not be read: go on with the next item.
    Skip,
    /// The stream reported an error: wait `millis`, then go on.
    Pause { millis: u64 },
    /// The consumer has stopped.
    Stop,
}

/// The kind of a receive action, as a plain value.
#[derive(Clone, Copy, Debug, PartialEq, Eq, Structural)]
pub enum ReceiveKind {
    Forward,
    Skip,
    Pause,
    Stop,
}

impl ReceiveAction {
    pub open spec fn kind(&self) -> ReceiveKind {
        match self {
            ReceiveAction::Forward(_) => ReceiveKind::Forward,
            ReceiveAction::Skip => ReceiveKind::Skip,
            ReceiveAction::Pause { .. } => ReceiveKind::Pause,
            ReceiveAction::Stop => ReceiveKind::Stop,
        }
    }
}

/// What to do once a forwarded event was delivered, or failed to be.
#[derive(Debug)]
pub enum ForwardAction {
    /// Go on with the next stream item.
    Continue,
    /// Save this checkpoint, then go on with the next stream item.
    SaveCheckpoint { partition_id: String, offset: i64, sequence_number: i64 },
    /// Delivery failed: stop consuming this partition.
    Stop,
}

/// The kind of a forward action, as a plain value.
#[derive(Clone, Copy, Debug, PartialEq, Eq, Structural)]
pub enum ForwardKind {
    Continue,
    SaveCheckpoint,
    Stop,
}

impl ForwardAction {
    pub open spec fn kind(&self) -> ForwardKind {
        match self {
            ForwardAction::Continue => ForwardKind::Continue,
            ForwardAction::SaveCheckpoint { .. } => ForwardKind::SaveCheckpoint,
            ForwardAction::Stop => ForwardKind::Stop,
        }
    }
}

/// The state of a partition consumer, as plain values.
pub struct PartitionConsumerView {
    pub partition_id: Seq<char>,
    pub checkpointing: bool,
    pub last_checkpoint_ms: u64,
    pub phase: ConsumerPhase,
}

/// Milliseconds from `since` to `now`, or 0 when `now` is earlier.
pub open spec fn elapsed_ms(since: u64, now: u64) -> int {
    if now >= since {
        now - since
    } else {
        0
    }
}

/// A checkpoint is due at `now` when checkpointing is on and at least the
/// checkpoint interval has passed since the last one.
pub open spec fn checkpoint_due(checkpointing: bool, last_ms: u64, now_ms: u64) -> bool {
    checkpointing && elapsed_ms(last_ms, now_ms) >= CHECKPOINT_INTERVAL_MS
}

/// The offset recorded for an event: the event's offset, or 0 when it has none.
pub open spec fn offset_or_zero(offset: Option<i64>) -> i64 {
    match offset {
        Some(o) => o,
        None => 0,
    }
}

/// The consumer's state after a stream item, and the kind of action taken.
pub open spec fn receive_step(s: PartitionConsumerView, item: StreamItemView) -> (PartitionConsumerView, ReceiveKind) {
    if s.phase is Stopped {
        (s, ReceiveKind::Stop)
    } else {
        match item {
            StreamItemView::Failed => (s, ReceiveKind::Pause),
            StreamItemView::Received { body, sequence_number, offset } => match body {
                None => (s, ReceiveKind::Skip),
                Some(_) => (
                    PartitionConsumerView {
                        phase: ConsumerPhase::Forwarding { offset: offset_or_zero(offset), sequence_number },
                        ..s
                    },
                    ReceiveKind::Forward,
                ),
            },
        }
    }
}

/// The consumer's state after the forwarded event was delivered (or not) at
/// `now_ms`, and the kind of action taken.
pub open spec fn forward_step(s: PartitionConsumerView, delivered: bool, now_ms: u64) -> (PartitionConsumerView, ForwardKind) {
    if !delivered {
        (PartitionConsumerView { phase: ConsumerPhase::Stopped, ..s }, ForwardKind::Stop)
    } else if checkpoint_due(s.checkpointing, s.last_checkpoint_ms, now_ms) {
        (
            PartitionConsumerView { phase: ConsumerPhase::Receiving, last_checkpoint_ms: now_ms, ..s },
            ForwardKind::SaveCheckpoint,
        )
    } else {
        (PartitionConsumerView { phase: ConsumerPhase::Receiving, ..s }, ForwardKind::Continue)
    }
}

/// The decisions of one partition's consumer loop.
pub struct PartitionConsumer {
    partition_id: String,
    checkpointing: bool,
    last_checkpoint_ms: u64,
    phase: ConsumerPhase,
}

impl View for PartitionConsumer {
    type V = PartitionConsumerView;

    closed spec fn view(&self) -> PartitionConsumerView {
        PartitionConsumerView {
            partition_id: self.partition_id@,
            checkpointing: self.checkpointing,
            last_checkpoint_ms: self.last_checkpoint_ms,
            phase: self.phase,
        }
    }
}

impl PartitionConsumer {
    /// A consumer of `partition_id` starting at `now_ms`; it checkpoints only
    /// when `checkpointing` (a checkpoint store is available).
    pub fn new(partition_id: &str, checkpointing: bool, now_ms: u64) -> (c: Self)
        ensures
            c@.partition_id == partition_id@,
            c@.checkpointing == checkpointing,
            c@.last_checkpoint_ms == now_ms,
            c@.phase == ConsumerPhase::Receiving,
    {
        PartitionConsumer {
            partition_id: partition_id.to_owned(),
            checkpointing,
            last_checkpoint_ms: now_ms,
            phase: ConsumerPhase::Receiving,
        }
    }

    /// The partition this consumer reads.
    pub fn partition_id(&self) -> (p: &String)
        ensures
            p@ == self@.partition_id,
    {
        &self.partition_id
    }

    /// Whether the consumer has stopped.
    pub fn is_stopped(&self) -> (b: bool)
        ensures
            b == (self@.phase is Stopped),
    {
        match self.phase {
            ConsumerPhase::Stopped => true,
            _ => false,
        }
    }

    /// Whether an event was handed out and its delivery not yet reported.
    pub fn is_forwarding(&self) -> (b: bool)
        ensures
            b == (self@.phase is Forwarding),
    {
        match self.phase {
            ConsumerPhase::Forwarding { .. } => true,
            _ => false,
        }
    }

    /// Decides on one stream item. An event with a readable body is handed out
    /// tagged with this partition, its offset defaulting to 0; an unreadable body
    /// is skipped; a stream error asks for a pause; a stopped consumer stops.
    pub fn on_item(&mut self, item: StreamItem) -> (a: ReceiveAction)
        requires
            !(old(self)@.phase is Forwarding),
        ensures
            (final(self)@, a.kind()) == receive_step(old(self)@, item@),
            a matches ReceiveAction::Pause { millis } ==> millis == STREAM_ERROR_PAUSE_MS,
            item@ is Failed && !(old(self)@.phase is Stopped) ==> a.kind() == ReceiveKind::Pause && final(self)@
                == old(self)@,
            (final(self)@.phase is Stopped) == (old(self)@.phase is Stopped),
            final(self)@.last_checkpoint_ms == old(self)@.last_checkpoint_ms,
            a matches ReceiveAction::Forward(e) ==> {
                &&& item@ matches StreamItemView::Received { body: Some(b), sequence_number, offset }
                &&& e@.data == b
                &&& e@.partition_id == old(self)@.partition_id
                &&& e@.sequence_number == sequence_number
                &&& e@.offset == offset_or_zero(offset)
            },
    {
        if self.is_stopped() {
            return ReceiveAction::Stop;
        }
        match item {
            StreamItem::Failed => ReceiveAction::Pause { millis: STREAM_ERROR_PAUSE_MS },
            StreamItem::Received { body, sequence_number, offset } => match body {
                None => ReceiveAction::Skip,
                Some(data) => {
                    let offset: i64 = match offset {
                        Some(o) => o,
                        None => 0,
                    };
                    self.phase = ConsumerPhase::Forwarding { offset, sequence_number };
                    ReceiveAction::Forward(
                        Event { data, partition_id: self.partition_id.clone(), sequence_number, offset },
                    )
                },
            },
        }
    }

    /// Decides after the handed-out event was delivered (`delivered`) or not, at
    /// `now_ms`. A failed delivery stops the consumer. Otherwise, when checkpointing
    /// and at least the interval passed since the last checkpoint, the event's
    /// position is to be saved and `now_ms` becomes the last checkpoint time.
    pub fn on_forwarded(&mut self, delivered: bool, now_ms: u64) -> (a: ForwardAction)
        requires
            old(self)@.phase is Forwarding,
        ensures
            (final(self)@, a.kind()) == forward_step(old(self)@, delivered, now_ms),
            delivered ==> final(self)@.phase == ConsumerPhase::Receiving,
            !delivered ==> final(self)@.phase == ConsumerPhase::Stopped && a.kind() == ForwardKind::Stop,
            a matches ForwardAction::SaveCheckpoint { partition_id, offset, sequence_number } ==> {
                &&& old(self)@.phase matches ConsumerPhase::Forwarding { offset: o, sequence_number: s }
                &&& offset == o
                &&& sequence_number == s
                &&& partition_id@ == old(self)@.partition_id
            },
    {
        let (offset, sequence_number) = match self.phase {
            ConsumerPhase::Forwarding { offset, sequence_number } => (offset, sequence_number),
            _ => (0, 0),
        };
        if !delivered {
            self.phase = ConsumerPhase::Stopped;
            return ForwardAction::Stop;
        }
        self.phase = ConsumerPhase::Receiving;
        let elapsed: u64 = if now_ms >= self.last_checkpoint_ms {
            now_ms - self.last_checkpoint_ms
        } else {
            0
        };
        if self.checkpointing && elapsed >= CHECKPOINT_INTERVAL_MS {
            self.last_checkpoint_ms = now_ms;
            ForwardAction::SaveCheckpoint {
                partition_id: self.partition_id.clone(),
                offset,
                sequence_number,
            }
        } else {
            ForwardAction::Continue
        }
    }
}

/// The partition ids of a consumer are pairwise distinct, so no partition is
/// read twice.
pub proof fn lemma_partition_ids_distinct(ids: Seq<String>, count: nat, i: int, j: int)
    requires
        ids.len() == count,
        forall|k: int| 0 <= k < ids.len() ==> (#[trigger] ids[k])@ == decimal(k as nat),
        0 <= i < count,
        0 <= j < count,
        i != j,
    ensures
        ids[i]@ != ids[j]@,
{
    if ids[i]@ == ids[j]@ {
        lemma_decimal_injective(i as nat, j as nat);
    }
}

/// Stream items never move the checkpoint mark, nor the partition or the
/// checkpointing setting.
pub proof fn lemma_receive_keeps_checkpoint_mark(s: PartitionConsumerView, item: StreamItemView)
    ensures
        receive_step(s, item).0.last_checkpoint_ms == s.last_checkpoint_ms,
        receive_step(s, item).0.partition_id == s.partition_id,
        receive_step(s, item).0.checkpointing == s.checkpointing,
{
}

/// Two checkpoints of one partition are at least the checkpoint interval apart:
/// if a delivery at `t1` led to a save, and a later state with the same mark
/// (stream items in between keep it) leads to a save at `t2`, then `t2` is at
/// least the interval after `t1`.
pub proof fn lemma_checkpoints_spaced(s1: PartitionConsumerView, t1: u64, s2: PartitionConsumerView, t2: u64)
    requires
        forward_step(s1, true, t1).1 == ForwardKind::SaveCheckpoint,
        s2.last_checkpoint_ms == forward_step(s1, true, t1).0.last_checkpoint_ms,
        forward_step(s2, true, t2).1 == ForwardKind::SaveCheckpoint,
    ensures
        t2 >= t1 + CHECKPOINT_INTERVAL_MS,
{
}

/// Without a checkpoint store nothing is ever saved, whatever the clock says.
pub proof fn lemma_no_store_no_checkpoint(s: PartitionConsumerView, delivered: bool, now_ms: u64)
    requires
        !s.checkpointing,
    ensures
        forward_step(s, delivered, now_ms).1 != ForwardKind::SaveCheckpoint,
{
}

/// Once stopped, a consumer stays stopped and hands out nothing.
pub proof fn lemma_stopped_is_final(s: PartitionConsumerView, item: StreamItemView)
    requires
        s.phase is Stopped,
    ensures
        receive_step(s, item) == (s, ReceiveKind::Stop),
{
}

/// An input of a partition consumer's run: a stream item, or the outcome of
/// delivering the event last handed out, reported at `now_ms`.
pub enum ConsumerInput {
    Item(StreamItemView),
    Outcome { delivered: bool, now_ms: u64 },
}

/// What a partition consumer's run records.
pub enum RunEntry {
    /// The event at this position was handed out for delivery.
    Forwarded { offset: i64, sequence_number: i64 },
    /// The event handed out was delivered.
    Delivered,
    /// The event handed out could not be delivered.
    Undelivered,
    /// The position was asked to be saved at `at_ms`.
    Saved { at_ms: u64, offset: i64, sequence_number: i64 },
}

/// The consumer's state after one input, and what it records. Inputs out of
/// turn (an item while an event awaits its outcome, or an outcome with no
/// event handed out) are refused by `on_item` and `on_forwarded`; here they
/// change nothing.
pub open spec fn run_step(s: PartitionConsumerView, input: ConsumerInput) -> (PartitionConsumerView, Seq<RunEntry>) {
    match input {
        ConsumerInput::Item(item) => {
            if s.phase is Forwarding {
                (s, Seq::empty())
            } else {
                let (s2, k) = receive_step(s, item);
                match s2.phase {
                    ConsumerPhase::Forwarding { offset, sequence_number } => {
                        if k == ReceiveKind::Forward {
                            (s2, seq![RunEntry::Forwarded { offset, sequence_number }])
                        } else {
                            (s2, Seq::empty())
                        }
                    },
                    _ => (s2, Seq::empty()),
                }
            }
        },
        ConsumerInput::Outcome { delivered, now_ms } => match s.phase {
            ConsumerPhase::Forwarding { offset, sequence_number } => {
                let (s2, k) = forward_step(s, delivered, now_ms);
                if !delivered {
                    (s2, seq![RunEntry::Undelivered])
                } else if k == ForwardKind::SaveCheckpoint {
                    (s2, seq![RunEntry::Delivered, RunEntry::Saved { at_ms: now_ms, offset, sequence_number }])
                } else {
                    (s2, seq![RunEntry::Delivered])
                }
            },
            _ => (s, Seq::empty()),
        },
    }
}

/// The consumer's state after a run of inputs, and the record of the run.
pub open spec fn run(s: PartitionConsumerView, inputs: Seq<ConsumerInput>) -> (PartitionConsumerView, Seq<RunEntry>)
    decreases inputs.len(),
{
    if inputs.len() == 0 {
        (s, Seq::empty())
    } else {
        let (s1, log) = run(s, inputs.drop_last());
        let (s2, entries) = run_step(s1, inputs.last());
        (s2, log + entries)
    }
}

/// Every save in the record is of the event handed out just before it, and
/// comes right after that event was reported delivered.
pub open spec fn saves_follow_delivery(log: Seq<RunEntry>) -> bool {
    forall|i: int|
        #![trigger log[i]]
        0 <= i < log.len() ==> (log[i] matches RunEntry::Saved { offset, sequence_number, .. } ==> {
            &&& i >= 2
            &&& log[i - 1] == RunEntry::Delivered
            &&& log[i - 2] == (RunEntry::Forwarded { offset, sequence_number })
        })
}

/// Every save in the record is at least the interval after `mark`, and at least
/// the interval after every earlier save.
pub open spec fn saves_spaced(mark: u64, log: Seq<RunEntry>) -> bool {
    &&& forall|i: int|
        #![trigger log[i]]
        0 <= i < log.len() ==> (log[i] matches RunEntry::Saved { at_ms, .. } ==> at_ms >= mark + CHECKPOINT_INTERVAL_MS)
    &&& forall|i: int, j: int|
        #![trigger log[i], log[j]]
        0 <= i < j < log.len() ==> (log[i] matches RunEntry::Saved { at_ms: a, .. } ==> (log[j] matches RunEntry::Saved {
            at_ms: b,
            ..
        } ==> b >= a + CHECKPOINT_INTERVAL_MS))
}

/// What holds of a consumer's state `s` and the record `log` of a run that
/// started from the mark `mark`.
spec fn run_invariant(mark: u64, s: PartitionConsumerView, log: Seq<RunEntry>) -> bool {
    &&& s.last_checkpoint_ms >= mark
    &&& (s.phase matches ConsumerPhase::Forwarding { offset, sequence_number } ==> log.len() >= 1 && log.last()
        == (RunEntry::Forwarded { offset, sequence_number }))
    &&& saves_follow_delivery(log)
    &&& saves_spaced(mark, log)
    &&& forall|i: int|
        #![trigger log[i]]
        0 <= i < log.len() ==> (log[i] matches RunEntry::Saved { at_ms, .. } ==> at_ms <= s.last_checkpoint_ms)
}

/// What one step records and how it moves the checkpoint mark.
spec fn step_facts(s1: PartitionConsumerView, s2: PartitionConsumerView, es: Seq<RunEntry>) -> bool {
    &&& es.len() <= 2
    &&& s2.last_checkpoint_ms >= s1.last_checkpoint_ms
    &&& !(es.len() >= 1 && es[0] is Saved)
    &&& (es.len() == 2 ==> {
        &&& es[0] == RunEntry::Delivered
        &&& s1.phase matches ConsumerPhase::Forwarding { offset, sequence_number }
        &&& es[1] matches RunEntry::Saved { at_ms, offset: o, sequence_number: q }
        &&& o == offset && q == sequence_number
        &&& at_ms >= s1.last_checkpoint_ms + CHECKPOINT_INTERVAL_MS
        &&& s2.last_checkpoint_ms == at_ms
    })
    &&& (es.len() < 2 ==> s2.last_checkpoint_ms == s1.last_checkpoint_ms)
    &&& (s2.phase matches ConsumerPhase::Forwarding { offset, sequence_number } ==> (es.len() == 0 && s2 == s1)
        || es == seq![RunEntry::Forwarded { offset, sequence_number }])
}

proof fn lemma_step_entries(s1: PartitionConsumerView, input: ConsumerInput)
    ensures
        step_facts(s1, run_step(s1, input).0, run_step(s1, input).1),
{
}

proof fn lemma_append_follow(s1: PartitionConsumerView, log1: Seq<RunEntry>, s2: PartitionConsumerView, es: Seq<RunEntry>)
    requires
        saves_follow_delivery(log1),
        s1.phase matches ConsumerPhase::Forwarding { offset, sequence_number } ==> log1.len() >= 1 && log1.last()
            == (RunEntry::Forwarded { offset, sequence_number }),
        step_facts(s1, s2, es),
    ensures
        saves_follow_delivery(log1 + es),
{
    let log = log1 + es;
    let n = log1.len();
    assert forall|i: int| #![trigger log[i]] 0 <= i < log.len() implies (log[i] matches RunEntry::Saved {
        offset,
        sequence_number,
        ..
    } ==> {
        &&& i >= 2
        &&& log[i - 1] == RunEntry::Delivered
        &&& log[i - 2] == (RunEntry::Forwarded { offset, sequence_number })
    }) by {
        if i < n {
            assert(log[i] == log1[i]);
            if log1[i] is Saved {
                assert(log[i - 1] == log1[i - 1]);
                assert(log[i - 2] == log1[i - 2]);
            }
        } else {
            assert(log[i] == es[i - n]);
            if log[i] is Saved {
                assert(i == n + 1);
                assert(log[i - 1] == es[0]);
                assert(log[i - 2] == log1[n - 1]);
            }
        }
    }
}

proof fn lemma_append_spaced(
    mark: u64,
    s1: PartitionConsumerView,
    log1: Seq<RunEntry>,
    s2: PartitionConsumerView,
    es: Seq<RunEntry>,
)
    requires
        saves_spaced(mark, log1),
        s1.last_checkpoint_ms >= mark,
        forall|i: int|
            #![trigger log1[i]]
            0 <= i < log1.len() ==> (log1[i] matches RunEntry::Saved { at_ms, .. } ==> at_ms <= s1.last_checkpoint_ms),
        step_facts(s1, s2, es),
    ensures
        saves_spaced(mark, log1 + es),
        forall|i: int|
            #![trigger (log1 + es)[i]]
            0 <= i < (log1 + es).len() ==> ((log1 + es)[i] matches RunEntry::Saved { at_ms, .. } ==> at_ms
                <= s2.last_checkpoint_ms),
{
    let log = log1 + es;
    let n = log1.len();
    assert forall|i: int| #![trigger log[i]] 0 <= i < log.len() implies (log[i] matches RunEntry::Saved {
        at_ms,
        ..
    } ==> at_ms <= s2.last_checkpoint_ms && at_ms >= mark + CHECKPOINT_INTERVAL_MS) by {
        if i < n {
            assert(log[i] == log1[i]);
        } else {
            assert(log[i] == es[i - n]);
        }
    }
    assert forall|i: int, j: int| #![trigger log[i], log[j]] 0 <= i < j < log.len() implies (
    log[i] matches RunEntry::Saved { at_ms: a, .. } ==> (log[j] matches RunEntry::Saved { at_ms: b, .. } ==> b >= a
        + CHECKPOINT_INTERVAL_MS)) by {
        if j < n {
            assert(log[i] == log1[i]);
            assert(log[j] == log1[j]);
        } else if i < n {
            assert(log[i] == log1[i]);
            assert(log[j] == es[j - n]);
        } else {
            assert(log[i] == es[i - n]);
            assert(log[j] == es[j - n]);
        }
    }
}

proof fn lemma_run_step_invariant(mark: u64, s1: PartitionConsumerView, log1: Seq<RunEntry>, s2: PartitionConsumerView, es: Seq<RunEntry>)
    requires
        run_invariant(mark, s1, log1),
        step_facts(s1, s2, es),
    ensures
        run_invariant(mark, s2, log1 + es),
{
    lemma_append_follow(s1, log1, s2, es);
    lemma_append_spaced(mark, s1, log1, s2, es);
    let log = log1 + es;
    if s2.phase is Forwarding {
        if es.len() == 0 {
            assert(log =~= log1);
        } else {
            assert(log.last() == es[0]);
        }
    }
}

proof fn lemma_run_invariant(s0: PartitionConsumerView, inputs: Seq<ConsumerInput>)
    requires
        !(s0.phase is Forwarding),
    ensures
        run_invariant(s0.last_checkpoint_ms, run(s0, inputs).0, run(s0, inputs).1),
    decreases inputs.len(),
{
    if inputs.len() > 0 {
        let init = inputs.drop_last();
        lemma_run_invariant(s0, init);
        let (s1, log1) = run(s0, init);
        lemma_step_entries(s1, inputs.last());
        let (s2, es) = run_step(s1, inputs.last());
        lemma_run_step_invariant(s0.last_checkpoint_ms, s1, log1, s2, es);
        assert(run(s0, inputs) == (s2, log1 + es));
    }
}

/// Over any run of a consumer that starts with no event awaiting delivery
/// (as `new` makes it): every checkpoint save is of the event handed out just
/// before it and comes only after that event was delivered (at-least-once);
/// the first save is at least the interval after the consumer's start mark,
/// and saves are at least the interval apart.
pub proof fn lemma_run_checkpoints(s0: PartitionConsumerView, inputs: Seq<ConsumerInput>)
    requires
        !(s0.phase is Forwarding),
    ensures
        saves_follow_delivery(run(s0, inputs).1),
        saves_spaced(s0.last_checkpoint_ms, run(s0, inputs).1),
{
    lemma_run_invariant(s0, inputs);
}

/// A stream error is transient: it asks for a pause and leaves a consumer that
/// has not stopped exactly as it was, so the next readable event after the
/// pause is handed out, tagged with the partition and carrying its position.
pub proof fn lemma_stream_error_is_transient(
    s: PartitionConsumerView,
    body: Seq<u8>,
    sequence_number: i64,
    offset: Option<i64>,
)
    requires
        !(s.phase is Stopped),
    ensures
        receive_step(s, StreamItemView::Failed) == (s, ReceiveKind::Pause),
        ({
            let after = receive_step(s, StreamItemView::Failed).0;
            let next = receive_step(
                after,
                StreamItemView::Received { body: Some(body), sequence_number, offset },
            );
            &&& next.1 == ReceiveKind::Forward
            &&& next.0.phase == (ConsumerPhase::Forwarding {
                offset: if offset is Some { offset->0 } else { 0 },
                sequence_number,
            })
            &&& next.0.partition_id == s.partition_id
        }),
{
}

/// Stream items never stop a consumer: whatever comes from the stream, a
/// consumer that has not stopped is not stopped afterwards.
pub proof fn lemma_items_never_stop(s: PartitionConsumerView, item: StreamItemView)
    ensures
        (receive_step(s, item).0.phase is Stopped) == (s.phase is Stopped),
        receive_step(s, item).0.last_checkpoint_ms == s.last_checkpoint_ms,
{
}

/// Only a failed delivery stops a consumer: after a delivered event (saved as a
/// checkpoint or not) it goes on receiving, and after a failed one it stops.
pub proof fn lemma_delivery_decides_stop(s: PartitionConsumerView, delivered: bool, now_ms: u64)
    ensures
        delivered ==> forward_step(s, true, now_ms).0.phase == ConsumerPhase::Receiving,
        forward_step(s, false, now_ms).0.phase == ConsumerPhase::Stopped,
        forward_step(s, false, now_ms).1 == ForwardKind::Stop,
        forward_step(s, delivered, now_ms).1 == ForwardKind::SaveCheckpoint ==> delivered
            && forward_step(s, delivered, now_ms).0.phase == ConsumerPhase::Receiving,
{
}

/// Over any run, a consumer that was not stopped ends stopped only if some
/// event of the run could not be delivered.
pub proof fn lemma_stopped_only_after_undelivered(s0: PartitionConsumerView, inputs: Seq<ConsumerInput>)
    requires
        !(s0.phase is Stopped),
    ensures
        run(s0, inputs).0.phase is Stopped ==> exists|i: int|
            0 <= i < run(s0, inputs).1.len() && #[trigger] run(s0, inputs).1[i] == RunEntry::Undelivered,
    decreases inputs.len(),
{
    if inputs.len() > 0 {
        let init = inputs.drop_last();
        lemma_stopped_only_after_undelivered(s0, init);
        let (s1, log1) = run(s0, init);
        let (s2, es) = run_step(s1, inputs.last());
        assert(run(s0, inputs) == (s2, log1 + es));
        let log = log1 + es;
        if s2.phase is Stopped {
            if s1.phase is Stopped {
                let i = choose|i: int| 0 <= i < log1.len() && #[trigger] log1[i] == RunEntry::Undelivered;
                assert(log[i] == log1[i]);
                assert(run(s0, inputs).1[i] == RunEntry::Undelivered);
            } else {
                lemma_items_never_stop(s1, StreamItemView::Failed);
                match inputs.last() {
                    ConsumerInput::Item(item) => {
                        lemma_items_never_stop(s1, item);
                    },
                    ConsumerInput::Outcome { delivered, now_ms } => {},
                }
                assert(es == seq![RunEntry::Undelivered]);
                assert(log[log1.len() as int] == es[0]);
                assert(run(s0, inputs).1[log1.len() as int] == RunEntry::Undelivered);
            }
        }
    }
}

/// After a delivered event, a checkpoint is asked for exactly when a store is
/// in use and at least 30 seconds passed since the last one (or the start); the
/// mark then moves to the time of the save, and otherwise stays.
pub proof fn lemma_checkpoint_when_due(s: PartitionConsumerView, now_ms: u64)
    ensures
        (forward_step(s, true, now_ms).1 == ForwardKind::SaveCheckpoint) <==> (s.checkpointing && now_ms
            >= s.last_checkpoint_ms + 30_000),
        forward_step(s, true, now_ms).1 == ForwardKind::SaveCheckpoint ==> forward_step(s, true, now_ms).0.last_checkpoint_ms
            == now_ms,
        forward_step(s, true, now_ms).1 != ForwardKind::SaveCheckpoint ==> forward_step(
            s,
            true,
            now_ms,
        ).0.last_checkpoint_ms == s.last_checkpoint_ms,
        forward_step(s, true, now_ms).1 != ForwardKind::Stop,
{
}

/// What a consumer that has not stopped does with each kind of stream item:
/// a readable event is handed out, an unreadable one is skipped without
/// changing anything, and a stream error asks for a pause.
pub proof fn lemma_item_outcomes(s: PartitionConsumerView, sequence_number: i64, offset: Option<i64>, body: Seq<u8>)
    requires
        !(s.phase is Stopped),
    ensures
        receive_step(s, StreamItemView::Received { body: None, sequence_number, offset }) == (s, ReceiveKind::Skip),
        receive_step(s, StreamItemView::Received { body: Some(body), sequence_number, offset }).1 == ReceiveKind::Forward,
        receive_step(s, StreamItemView::Failed).1 == ReceiveKind::Pause,
{
}

} // verus!
