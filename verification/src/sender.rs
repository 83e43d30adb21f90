//! Delivery to Vector: connection settings, the framing of a serialized batch,
//! and the retry decisions for one batch, paced by an exponential backoff.

use vstd::prelude::*;
use std::time::Duration;
use crate::retry::{make_backoff, next_backoff, BackoffPolicy, RetrySettings};
use crate::text::{decimal, push_decimal};

verus! {

/// Settings of the connection to Vector and of the retries of a batch.
#[derive(Clone, Debug)]
pub struct VectorConfig {
    pub host: String,
    pub port: u16,
    pub connection_timeout_ms: u64,
    pub write_timeout_ms: u64,
    pub retry_initial_interval_ms: u64,
    pub retry_max_interval_ms: u64,
    pub retry_max_elapsed_time_ms: u64,
}

impl Default for VectorConfig {
    fn default() -> (c: Self)
        ensures
            c.host@ == "localhost"@,
            c.port == 9000,
            c.connection_timeout_ms == 5000,
            c.write_timeout_ms == 5000,
            c.retry_initial_interval_ms == 100,
            c.retry_max_interval_ms == 10000,
            c.retry_max_elapsed_time_ms == 300000,
    {
        VectorConfig {
            host: String::from_str("localhost"),
            port: 9000,
            connection_timeout_ms: 5000,
            write_timeout_ms: 5000,
            retry_initial_interval_ms: 100,
            retry_max_interval_ms: 10000,
            retry_max_elapsed_time_ms: 300000,
        }
    }
}

/// The `host:port` address of Vector.
pub open spec fn vector_address(host: Seq<char>, port: u16) -> Seq<char> {
    host + ":"@ + decimal(port as nat)
}

impl VectorConfig {
    /// The `host:port` address to connect to.
    pub fn address(&self) -> (a: String)
        ensures
            a@ == vector_address(self.host@, self.port),
    {
        let mut a = self.host.clone();
        a.append(":");
        push_decimal(&mut a, self.port as u64);
        a
    }
}

/// A serialized batch as written to Vector: the bytes, then a newline.
pub fn frame_batch(serialized: Vec<u8>) -> (framed: Vec<u8>)
    ensures
        framed@ == serialized@.push(10u8),
{
    let mut framed = serialized;
    framed.push(10u8);
    framed
}

/// Where the delivery of one batch stands.
#[derive(Clone, Copy, Debug, PartialEq, Eq, Structural)]
pub enum DeliveryPhase {
    /// A send attempt is due.
    Sending,
    /// A send failed; the caller waits and reconnects, then resumes.
    Waiting,
    /// The batch was written.
    Delivered,
    /// The backoff ran out: the batch is dropped.
    Abandoned,
}

/// What the caller does after a send attempt.
#[derive(Debug)]
pub enum DeliveryAction {
    /// The batch is delivered: go on with the next one.
    Done,
    /// Wait `delay`, reconnect, resume and send again; `attempt` counts the failures so far.
    RetryAfter { delay: Duration, attempt: u64 },
    /// No retries are left: drop the batch.
    GiveUp,
}

/// The kind of a delivery action, as a plain value.
#[derive(Clone, Copy, Debug, PartialEq, Eq, Structural)]
pub enum DeliveryKind {
    Done,
    RetryAfter,
    GiveUp,
}

impl DeliveryAction {
    pub open spec fn kind(&self) -> DeliveryKind {
        match self {
            DeliveryAction::Done => DeliveryKind::Done,
            DeliveryAction::RetryAfter { .. } => DeliveryKind::RetryAfter,
            DeliveryAction::GiveUp => DeliveryKind::GiveUp,
        }
    }
}

/// The retry settings of a Vector configuration.
pub open spec fn retry_settings_of(config: VectorConfig) -> RetrySettings {
    RetrySettings {
        initial_interval_ms: config.retry_initial_interval_ms,
        max_interval_ms: config.retry_max_interval_ms,
        max_elapsed_time_ms: config.retry_max_elapsed_time_ms,
    }
}

/// The delivery of one batch, as plain values.
pub struct BatchDeliveryView {
    pub retry_count: u64,
    pub phase: DeliveryPhase,
    /// The settings the batch's backoff policy was made with.
    pub policy_settings: RetrySettings,
    /// How often the backoff policy was asked for a wait.
    pub consultations: nat,
    /// The backoff policy's last answer.
    pub last_wait: Option<Duration>,
}

/// The same delivery after one more question to its backoff policy, answered
/// with `wait`.
pub open spec fn consulted(s: BatchDeliveryView, wait: Option<Duration>) -> BatchDeliveryView {
    BatchDeliveryView { consultations: s.consultations + 1, last_wait: wait, ..s }
}

/// One more failure, counted without overflow.
pub open spec fn count_failure(n: u64) -> u64 {
    if n < u64::MAX {
        (n + 1) as u64
    } else {
        n
    }
}

/// The delivery state after a failed send, given whether the backoff offered
/// another wait, and the kind of action.
pub open spec fn failure_step(s: BatchDeliveryView, wait_offered: bool) -> (BatchDeliveryView, DeliveryKind) {
    let n: u64 = count_failure(s.retry_count);
    if wait_offered {
        (BatchDeliveryView { retry_count: n, phase: DeliveryPhase::Waiting, ..s }, DeliveryKind::RetryAfter)
    } else {
        (BatchDeliveryView { retry_count: n, phase: DeliveryPhase::Abandoned, ..s }, DeliveryKind::GiveUp)
    }
}

/// The retry decisions for one batch.
pub struct BatchDelivery {
    policy: BackoffPolicy,
    retry_count: u64,
    phase: DeliveryPhase,
}

impl View for BatchDelivery {
    type V = BatchDeliveryView;

    closed spec fn view(&self) -> BatchDeliveryView {
        BatchDeliveryView {
            retry_count: self.retry_count,
            phase: self.phase,
            policy_settings: self.policy.spec_settings(),
            consultations: self.policy.consultations(),
            last_wait: self.policy.last_wait(),
        }
    }
}

impl BatchDelivery {
    /// The delivery of a new batch, paced by a backoff policy made with
    /// `config`'s retry settings: no failure yet, a send is due.
    pub fn new(config: &VectorConfig) -> (d: Self)
        ensures
            d@ == (BatchDeliveryView {
                retry_count: 0,
                phase: DeliveryPhase::Sending,
                policy_settings: retry_settings_of(*config),
                consultations: 0,
                last_wait: None,
            }),
    {
        BatchDelivery {
            policy: make_backoff(
                config.retry_initial_interval_ms,
                config.retry_max_interval_ms,
                config.retry_max_elapsed_time_ms,
            ),
            retry_count: 0,
            phase: DeliveryPhase::Sending,
        }
    }

    /// The settings this delivery's backoff policy was made with.
    pub fn retry_settings(&self) -> (s: RetrySettings)
        ensures
            s == self@.policy_settings,
    {
        self.policy.settings()
    }

    /// The number of failed sends so far.
    pub fn retry_count(&self) -> (n: u64)
        ensures
            n == self@.retry_count,
    {
        self.retry_count
    }

    /// Where the delivery stands.
    pub fn phase(&self) -> (p: DeliveryPhase)
        ensures
            p == self@.phase,
    {
        self.phase
    }

    /// Decides after a failed send, given the backoff's answer `delay`: the
    /// failure is counted; a wait means retry after it, none means give up.
    pub fn record_failure(&mut self, delay: Option<Duration>) -> (a: DeliveryAction)
        requires
            old(self)@.phase == DeliveryPhase::Sending,
        ensures
            (final(self)@, a.kind()) == failure_step(old(self)@, delay is Some),
            a matches DeliveryAction::RetryAfter { delay: d, attempt } ==> delay == Some(d) && attempt
                == final(self)@.retry_count,
    {
        if self.retry_count < u64::MAX {
            self.retry_count = self.retry_count + 1;
        }
        match delay {
            Some(d) => {
                self.phase = DeliveryPhase::Waiting;
                DeliveryAction::RetryAfter { delay: d, attempt: self.retry_count }
            },
            None => {
                self.phase = DeliveryPhase::Abandoned;
                DeliveryAction::GiveUp
            },
        }
    }

    /// Decides after a send attempt: a success delivers the batch; a failure asks
    /// the backoff policy for the next wait and decides on its answer as
    /// `record_failure` does: retry after the wait it offered, or give up when it
    /// offered none.
    pub fn on_send_result(&mut self, sent: bool) -> (a: DeliveryAction)
        requires
            old(self)@.phase == DeliveryPhase::Sending,
        ensures
            sent ==> a.kind() == DeliveryKind::Done && final(self)@ == (BatchDeliveryView {
                phase: DeliveryPhase::Delivered,
                ..old(self)@
            }),
            !sent ==> (final(self)@, a.kind()) == failure_step(
                consulted(old(self)@, final(self)@.last_wait),
                final(self)@.last_wait is Some,
            ),
            a matches DeliveryAction::RetryAfter { delay, attempt } ==> attempt == final(self)@.retry_count
                && final(self)@.last_wait == Some(delay),
    {
        if sent {
            self.phase = DeliveryPhase::Delivered;
            return DeliveryAction::Done;
        }
        let delay = next_backoff(&mut self.policy);
        let a = self.record_failure(delay);
        proof {
            assert((self@, a.kind()) == failure_step(consulted(old(self)@, delay), delay is Some));
        }
        a
    }

    /// After the wait (and the reconnection attempt), a send is due again.
    pub fn resume(&mut self)
        requires
            old(self)@.phase == DeliveryPhase::Waiting,
        ensures
            final(self)@ == (BatchDeliveryView { phase: DeliveryPhase::Sending, ..old(self)@ }),
    {
        self.phase = DeliveryPhase::Sending;
    }
}

/// Each failed send counts once, and a batch is only dropped when the backoff
/// offers no further wait: with a wait offered the batch is retried.
pub proof fn lemma_failure_counted_and_retried(s: BatchDeliveryView, offered: bool)
    requires
        s.retry_count < u64::MAX,
    ensures
        failure_step(s, offered).0.retry_count == s.retry_count + 1,
        offered <==> failure_step(s, offered).1 == DeliveryKind::RetryAfter,
        !offered <==> failure_step(s, offered).0.phase == DeliveryPhase::Abandoned,
{
}

/// The delivery for Vector: its settings, and what it derives from them.
pub struct VectorSender {
    config: VectorConfig,
}

impl VectorSender {
    /// The settings this sender was made with.
    pub closed spec fn spec_config(&self) -> VectorConfig {
        self.config
    }

    /// A sender for `config`.
    pub fn new(config: VectorConfig) -> (s: Self)
        ensures
            s.spec_config() == config,
    {
        VectorSender { config }
    }

    /// The settings of this sender.
    pub fn config(&self) -> (c: &VectorConfig)
        ensures
            *c == self.spec_config(),
    {
        &self.config
    }

    /// The `host:port` address of Vector.
    pub fn address(&self) -> (a: String)
        ensures
            a@ == vector_address(self.spec_config().host@, self.spec_config().port),
    {
        self.config.address()
    }

    /// The delivery of a new batch under this sender's retry settings.
    pub fn start_delivery(&self) -> (d: BatchDelivery)
        ensures
            d@ == (BatchDeliveryView {
                retry_count: 0,
                phase: DeliveryPhase::Sending,
                policy_settings: retry_settings_of(self.spec_config()),
                consultations: 0,
                last_wait: None,
            }),
    {
        BatchDelivery::new(&self.config)
    }
}

} // verus!
