//! The retry decision itself: a pure function from policy state and attempt
//! outcome to an optional successor state.

use vstd::prelude::*;

verus! {

/// What one attempt of a request came to: either a structured response,
/// identified by its numeric status code, or a transport-level failure
/// (connection failure, timeout, protocol error) that produced no response.
#[derive(Clone, Copy)]
pub enum AttemptOutcome {
    Response(u16),
    TransportError,
}

/// The retry policy, an immutable-per-attempt value. A granted retry never
/// mutates the policy: it produces a fresh value with the budget decremented.
#[derive(Clone)]
pub enum RetryConfig {
    /// Never retry.
    NoRetry,
    /// Retry on a server error (5xx), on status 429, or on a transport
    /// error, at most this many more times.
    BoundedCount(usize),
    /// Retry at most `.0` more times if the status is a 5xx, if it is in the
    /// list `.1`, or on a transport error.
    BoundedCountWithStatuses(usize, &'static [u16]),
}

/// A status code in the server-error class.
pub open spec fn is_server_error(status: u16) -> bool {
    500 <= status <= 599
}

/// Whether an outcome is retryable under the default classification:
/// transport errors always, responses on a 5xx status or on 429.
pub open spec fn default_retryable(outcome: AttemptOutcome) -> bool {
    match outcome {
        AttemptOutcome::Response(status) => is_server_error(status) || status == 429,
        AttemptOutcome::TransportError => true,
    }
}

/// Whether an outcome is retryable given an extra allow-list of statuses:
/// transport errors always, responses on a 5xx status or on a listed status.
pub open spec fn listed_retryable(extra: Seq<u16>, outcome: AttemptOutcome) -> bool {
    match outcome {
        AttemptOutcome::Response(status) => is_server_error(status) || extra.contains(status),
        AttemptOutcome::TransportError => true,
    }
}

impl RetryConfig {
    /// The retry budget: how many further attempts this policy state permits.
    pub open spec fn spec_remaining(self) -> nat {
        match self {
            RetryConfig::NoRetry => 0,
            RetryConfig::BoundedCount(count) => count as nat,
            RetryConfig::BoundedCountWithStatuses(count, _) => count as nat,
        }
    }

    /// Whether this policy grants a retry after `outcome`.
    pub open spec fn spec_retries_on(self, outcome: AttemptOutcome) -> bool {
        match self {
            RetryConfig::NoRetry => false,
            RetryConfig::BoundedCount(count) => count > 0 && default_retryable(outcome),
            RetryConfig::BoundedCountWithStatuses(count, statuses) => count > 0
                && listed_retryable(statuses@, outcome),
        }
    }

    /// The successor state handed to the next attempt: the same variant and
    /// allow-list, with the budget decremented by exactly one.
    pub open spec fn spec_next(self) -> RetryConfig {
        match self {
            RetryConfig::NoRetry => RetryConfig::NoRetry,
            RetryConfig::BoundedCount(count) => RetryConfig::BoundedCount((count - 1) as usize),
            RetryConfig::BoundedCountWithStatuses(count, statuses) => RetryConfig::BoundedCountWithStatuses(
                (count - 1) as usize,
                statuses,
            ),
        }
    }

    /// What `decide` returns: the successor state when a retry is granted,
    /// nothing when the outcome is to be surfaced as final.
    pub open spec fn spec_decide(self, outcome: AttemptOutcome) -> Option<RetryConfig> {
        if self.spec_retries_on(outcome) {
            Some(self.spec_next())
        } else {
            None
        }
    }

    /// Decide whether to re-issue the request after `outcome`. `None` means
    /// "stop, surface this outcome as final"; `Some(next)` means "retry,
    /// with `next` as the policy for the subsequent attempt".
    pub fn decide(&self, outcome: AttemptOutcome) -> (r: Option<RetryConfig>)
        ensures
            r == self.spec_decide(outcome),
    {
        match self {
            RetryConfig::NoRetry => None,
            RetryConfig::BoundedCount(count) => {
                if outcome_default_retryable(outcome) {
                    if *count > 0 {
                        Some(RetryConfig::BoundedCount(*count - 1))
                    } else {
                        None
                    }
                } else {
                    None
                }
            },
            RetryConfig::BoundedCountWithStatuses(count, statuses) => {
                if outcome_listed_retryable(statuses, outcome) {
                    if *count > 0 {
                        Some(RetryConfig::BoundedCountWithStatuses(*count - 1, statuses))
                    } else {
                        None
                    }
                } else {
                    None
                }
            },
        }
    }
}

/// The default classification, executably: 5xx, 429, or a transport error.
fn outcome_default_retryable(outcome: AttemptOutcome) -> (r: bool)
    ensures
        r == default_retryable(outcome),
{
    match outcome {
        AttemptOutcome::Response(status) => (500 <= status && status <= 599) || status == 429,
        AttemptOutcome::TransportError => true,
    }
}

/// The allow-list classification, executably: 5xx, a listed status, or a
/// transport error.
fn outcome_listed_retryable(extra: &[u16], outcome: AttemptOutcome) -> (r: bool)
    ensures
        r == listed_retryable(extra@, outcome),
{
    match outcome {
        AttemptOutcome::Response(status) => (500 <= status && status <= 599) || contains_status(
            extra,
            status,
        ),
        AttemptOutcome::TransportError => true,
    }
}

/// Whether `status` occurs in `list`.
fn contains_status(list: &[u16], status: u16) -> (r: bool)
    ensures
        r == list@.contains(status),
{
    let mut i: usize = 0;
    while i < list.len()
        invariant
            0 <= i <= list@.len(),
            forall|j: int| 0 <= j < i ==> list@[j] != status,
        decreases list@.len() - i,
    {
        if list[i] == status {
            assert(list@.contains(status)) by {
                assert(list@[i as int] == status);
            }
            return true;
        }
        i = i + 1;
    }
    false
}

} // verus!
