//! The guarantees the retry policy gives its callers, stated and proved
//! once and for all over `RetryConfig::spec_decide`.

use vstd::prelude::*;

use crate::policy::AttemptOutcome;
use crate::policy::RetryConfig;
use crate::policy::is_server_error;

verus! {

/// A bounded policy with budget left retries on any server-error response
/// (500 among them), and the successor state is the same policy with the
/// budget decremented by exactly one.
pub proof fn lemma_server_error_retried(count: usize, status: u16)
    requires
        count >= 1,
        is_server_error(status),
    ensures
        RetryConfig::BoundedCount(count).spec_decide(AttemptOutcome::Response(status))
            == Some(RetryConfig::BoundedCount((count - 1) as usize)),
{
}

/// A bounded policy whose budget has reached zero never retries, whatever
/// the outcome of the attempt was.
pub proof fn lemma_exhausted_budget_never_retries(config: RetryConfig, outcome: AttemptOutcome)
    requires
        config.spec_remaining() == 0,
    ensures
        config.spec_decide(outcome) is None,
{
}

/// A bounded policy does not retry on a 404 response, however much budget
/// it has left: 404 is neither a server error nor the too-many-requests
/// status.
pub proof fn lemma_not_found_not_retried(count: usize)
    ensures
        RetryConfig::BoundedCount(count).spec_decide(AttemptOutcome::Response(404)) is None,
{
}

/// A bounded policy with budget left retries on status 429 (too many
/// requests) even though 429 is not in the server-error class.
pub proof fn lemma_too_many_requests_retried(count: usize)
    requires
        count >= 1,
    ensures
        !is_server_error(429),
        RetryConfig::BoundedCount(count).spec_decide(AttemptOutcome::Response(429))
            == Some(RetryConfig::BoundedCount((count - 1) as usize)),
{
}

/// A policy with an extra allow-list and budget left retries on any listed
/// status and on any server error, and its successor keeps the same
/// allow-list with the budget decremented by one.
pub proof fn lemma_listed_status_retried(count: usize, statuses: &'static [u16], status: u16)
    requires
        count >= 1,
        is_server_error(status) || statuses@.contains(status),
    ensures
        RetryConfig::BoundedCountWithStatuses(count, statuses).spec_decide(
            AttemptOutcome::Response(status),
        ) == Some(RetryConfig::BoundedCountWithStatuses((count - 1) as usize, statuses)),
{
}

/// A policy with an extra allow-list does not retry on a response whose
/// status is neither a server error nor listed (404 against the list
/// {418}, for instance), whatever budget it has left.
pub proof fn lemma_unlisted_status_not_retried(count: usize, statuses: &'static [u16], status: u16)
    requires
        !is_server_error(status),
        !statuses@.contains(status),
    ensures
        RetryConfig::BoundedCountWithStatuses(count, statuses).spec_decide(
            AttemptOutcome::Response(status),
        ) is None,
{
}

/// Starting from a budget of two, three consecutive server errors yield
/// retry with budget one, retry with budget zero, and then stop: the third
/// outcome is surfaced as final.
pub proof fn lemma_budget_exhaustion_sequence(first: u16, second: u16, third: u16)
    requires
        is_server_error(first),
        is_server_error(second),
        is_server_error(third),
    ensures
        RetryConfig::BoundedCount(2).spec_decide(AttemptOutcome::Response(first))
            == Some(RetryConfig::BoundedCount(1)),
        RetryConfig::BoundedCount(1).spec_decide(AttemptOutcome::Response(second))
            == Some(RetryConfig::BoundedCount(0)),
        RetryConfig::BoundedCount(0).spec_decide(AttemptOutcome::Response(third)) is None,
{
}

/// A transport error spends budget exactly as a server-error response
/// does: every policy state decides the two outcomes identically, with the
/// same decrement and the same retry/stop boundary.
pub proof fn lemma_transport_error_like_server_error(config: RetryConfig, status: u16)
    requires
        is_server_error(status),
    ensures
        config.spec_decide(AttemptOutcome::TransportError) == config.spec_decide(
            AttemptOutcome::Response(status),
        ),
{
}

/// A granted retry decrements the budget by exactly one and preserves the
/// rest of the configuration: the variant is kept, and an extra allow-list
/// is never changed across retries.
pub proof fn lemma_retry_decrements_budget(config: RetryConfig, outcome: AttemptOutcome)
    ensures
        config.spec_decide(outcome) matches Some(next) ==> {
            &&& next.spec_remaining() + 1 == config.spec_remaining()
            &&& (config is BoundedCount ==> next is BoundedCount)
            &&& (config matches RetryConfig::BoundedCountWithStatuses(_, statuses)
                ==> next matches RetryConfig::BoundedCountWithStatuses(_, next_statuses)
                    && next_statuses == statuses)
        },
{
}

} // verus!
