//! The exponential backoff policies of the `backoff` crate that pace retries.

use vstd::prelude::*;
use std::time::Duration;
use backoff::SystemClock;
use backoff::exponential::ExponentialBackoff;

verus! {

/// The exponential backoff policy of the `backoff` crate; opaque here.
#[verifier::external_type_specification]
#[verifier::external_body]
#[verifier::reject_recursive_types(C)]
pub struct ExExponentialBackoff<C>(ExponentialBackoff<C>);

/// The wall clock that paces the `backoff` crate's policies; opaque here.
#[verifier::external_type_specification]
#[verifier::external_body]
pub struct ExSystemClock(SystemClock);

/// The settings a backoff policy is made with, in milliseconds: the first
/// wait, the longest wait, and how long retries may go on in all.
#[derive(Clone, Copy, Debug, PartialEq, Eq, Structural)]
pub struct RetrySettings {
    pub initial_interval_ms: u64,
    pub max_interval_ms: u64,
    pub max_elapsed_time_ms: u64,
}

/// A backoff policy of the `backoff` crate, with the settings it was made with,
/// a count of how often it was asked for a wait, and its last answer.
pub struct BackoffPolicy {
    inner: ExponentialBackoff<SystemClock>,
    settings: RetrySettings,
    consultations: Ghost<nat>,
    last_wait: Ghost<Option<Duration>>,
}

impl BackoffPolicy {
    /// The settings the policy was made with.
    pub closed spec fn spec_settings(&self) -> RetrySettings {
        self.settings
    }

    /// How often the policy was asked for a wait since it was made.
    pub closed spec fn consultations(&self) -> nat {
        self.consultations@
    }

    /// The policy's last answer: the wait it offered, or `None` when it offered
    /// none (or was not asked yet).
    pub closed spec fn last_wait(&self) -> Option<Duration> {
        self.last_wait@
    }

    /// The settings the policy was made with.
    pub fn settings(&self) -> (s: RetrySettings)
        ensures
            s == self.spec_settings(),
    {
        self.settings
    }

    /// The `backoff` crate's policy itself, for code that drives it directly.
    pub fn into_inner(self) -> ExponentialBackoff<SystemClock> {
        self.inner
    }
}

/// Makes a backoff policy: `ExponentialBackoff` of the `backoff` crate whose
/// first wait (current and initial interval) is `initial_ms`, longest wait
/// `max_interval_ms` and maximum elapsed time `max_elapsed_ms`, with the crate's
/// defaults otherwise (randomization factor 0.5, multiplier 1.5). The policy
/// reads the clock when made, so nothing more is stated of it than the settings
/// it was made with.
#[verifier::external_body]
pub(crate) fn make_backoff(initial_ms: u64, max_interval_ms: u64, max_elapsed_ms: u64) -> (p: BackoffPolicy)
    ensures
        p.spec_settings() == (RetrySettings {
            initial_interval_ms: initial_ms,
            max_interval_ms: max_interval_ms,
            max_elapsed_time_ms: max_elapsed_ms,
        }),
        p.consultations() == 0,
        p.last_wait() is None,
{
    let inner = ExponentialBackoff {
        current_interval: Duration::from_millis(initial_ms),
        initial_interval: Duration::from_millis(initial_ms),
        max_interval: Duration::from_millis(max_interval_ms),
        max_elapsed_time: Some(Duration::from_millis(max_elapsed_ms)),
        ..Default::default()
    };
    let settings = RetrySettings { initial_interval_ms: initial_ms, max_interval_ms, max_elapsed_time_ms: max_elapsed_ms };
    BackoffPolicy { inner, settings, consultations: Ghost(0), last_wait: Ghost(None) }
}

/// The next wait of a backoff policy (`Backoff::next_backoff` of the `backoff`
/// crate), or `None` once its maximum elapsed time is spent. The wait is
/// randomized and the cut-off reads the clock, so nothing is stated of which
/// answer comes; the call is counted, the answer is recorded as the policy's
/// last wait, and the policy keeps its settings.
#[verifier::external_body]
pub(crate) fn next_backoff(policy: &mut BackoffPolicy) -> (d: Option<Duration>)
    ensures
        final(policy).spec_settings() == old(policy).spec_settings(),
        final(policy).consultations() == old(policy).consultations() + 1,
        final(policy).last_wait() == d,
{
    let d = backoff::backoff::Backoff::next_backoff(&mut policy.inner);
    policy.consultations = Ghost(policy.consultations@ + 1);
    policy.last_wait = Ghost(d);
    d
}

} // verus!
