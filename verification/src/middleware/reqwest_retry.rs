//! Retrying client requests that fail in a transient manner.
//!
//! After each attempt the middleware classifies the outcome. A transient failure is
//! retried, after the wait that the retry policy asks for, as long as fewer than
//! [`MAXIMUM_NUMBER_OF_RETRIES`] retries have been made and the policy agrees; any
//! other outcome is returned as it is.
use vstd::prelude::*;

verus! {

/// The largest number of retries of one request.
pub const MAXIMUM_NUMBER_OF_RETRIES: u32 = 10;

/// Middleware that retries requests that fail in a transient manner, waiting
/// between attempts as its retry policy decides.
#[derive(Debug)]
pub struct RetryTransientMiddleware<T> {
    client_name: String,
    retry_policy: T,
}

impl<T> RetryTransientMiddleware<T> {
    /// Middleware with the given retry policy, for the client with the given name.
    pub fn new_with_policy(retry_policy: T, client_name: String) -> (middleware: Self)
        ensures
            middleware.client_name_view() == client_name@,
            middleware.retry_policy_view() == retry_policy,
    {
        RetryTransientMiddleware { client_name, retry_policy }
    }

    /// The name of the client, as text.
    pub closed spec fn client_name_view(&self) -> Seq<char> {
        self.client_name@
    }

    /// The retry policy.
    pub closed spec fn retry_policy_view(&self) -> T {
        self.retry_policy
    }

    /// The name of the client.
    pub fn client_name(&self) -> (name: &String)
        ensures
            name@ == self.client_name_view(),
    {
        &self.client_name
    }

    /// The retry policy.
    pub fn retry_policy(&self) -> (policy: &T)
        ensures
            *policy == self.retry_policy_view(),
    {
        &self.retry_policy
    }
}

/// How a failed attempt is classified.
#[derive(Debug, Clone, Copy, PartialEq, Eq, Structural)]
pub enum Retryable {
    /// The failure may go away if the request is sent again.
    Transient,
    /// Sending the request again would fail in the same way.
    Fatal,
}

/// Whether the retry policy is asked about an attempt: only when the attempt failed
/// transiently and fewer than the maximum number of retries have been made.
pub open spec fn consults_policy(n_past_retries: int, retryable: Option<Retryable>) -> bool {
    retryable == Some(Retryable::Transient) && n_past_retries < MAXIMUM_NUMBER_OF_RETRIES
}

/// Whether the retry policy is asked about the attempt that follows `n_past_retries`
/// retries and ended as `retryable` classifies it (`None` for a success).
pub fn should_consult_policy(n_past_retries: u32, retryable: Option<Retryable>) -> (consult: bool)
    ensures
        consult == consults_policy(n_past_retries as int, retryable),
{
    match retryable {
        Some(Retryable::Transient) => n_past_retries < MAXIMUM_NUMBER_OF_RETRIES,
        _ => false,
    }
}

/// The retry count after the policy answered: one more when it asks for a retry,
/// `None` when the attempt's result is to be returned.
pub fn retry_count_after_decision(n_past_retries: u32, policy_retries: bool) -> (next: Option<u32>)
    requires
        n_past_retries < MAXIMUM_NUMBER_OF_RETRIES,
    ensures
        next == (if policy_retries {
            Some((n_past_retries + 1) as u32)
        } else {
            None
        }),
{
    if policy_retries {
        Some(n_past_retries + 1)
    } else {
        None
    }
}

/// Whether an attempt is recorded in the retry metrics: every attempt but the first.
pub fn records_retry_metrics(n_past_retries: u32) -> (record: bool)
    ensures
        record == (n_past_retries > 0),
{
    n_past_retries > 0
}

/// One step of the retry loop: the retry count for the next attempt, or `None` when
/// the attempt's result is returned.
pub open spec fn retry_step(n_past_retries: nat, retryable: Option<Retryable>, policy_retries: bool) -> Option<nat> {
    if consults_policy(n_past_retries as int, retryable) && policy_retries {
        Some(n_past_retries + 1)
    } else {
        None
    }
}

/// One step of the retry loop, as the loop runs it: after the attempt that followed
/// `n_past_retries` retries and ended as `retryable` classifies it, with the policy's
/// answer `policy_retries` (read only when the policy is consulted), the retry count
/// for the next attempt, or `None` when the attempt's result is returned.
pub fn next_retry_count(n_past_retries: u32, retryable: Option<Retryable>, policy_retries: bool) -> (next: Option<u32>)
    ensures
        retry_step(n_past_retries as nat, retryable, policy_retries) == match next {
            Some(count) => Some(count as nat),
            None => None::<nat>,
        },
{
    if should_consult_policy(n_past_retries, retryable) {
        match retry_count_after_decision(n_past_retries, policy_retries) {
            Some(count) => Some(count),
            None => None,
        }
    } else {
        None
    }
}

/// The number of attempts the retry loop makes, starting after `n_past_retries`
/// retries, when the `i`-th attempt ends as `events[i].0` classifies it and the policy
/// would answer `events[i].1`.
pub open spec fn attempts_made(n_past_retries: nat, events: Seq<(Option<Retryable>, bool)>) -> nat
    decreases events.len(),
{
    if events.len() == 0 {
        0
    } else {
        match retry_step(n_past_retries, events[0].0, events[0].1) {
            Some(next) => 1 + attempts_made(next, events.drop_first()),
            None => 1,
        }
    }
}

/// The retry count never exceeds the maximum: a step from a count within bounds
/// leads to the next count, still within bounds.
pub proof fn lemma_retry_step_bounded(n_past_retries: nat, retryable: Option<Retryable>, policy_retries: bool)
    requires
        n_past_retries <= MAXIMUM_NUMBER_OF_RETRIES,
    ensures
        retry_step(n_past_retries, retryable, policy_retries) matches Some(next) ==> next
            == n_past_retries + 1 && next <= MAXIMUM_NUMBER_OF_RETRIES,
{
}

/// A request is sent at most `MAXIMUM_NUMBER_OF_RETRIES + 1` times, whatever the
/// attempts' outcomes and the policy's answers.
pub proof fn lemma_attempts_bounded(n_past_retries: nat, events: Seq<(Option<Retryable>, bool)>)
    requires
        n_past_retries <= MAXIMUM_NUMBER_OF_RETRIES,
    ensures
        attempts_made(n_past_retries, events) <= MAXIMUM_NUMBER_OF_RETRIES + 1 - n_past_retries,
    decreases events.len(),
{
    if events.len() > 0 {
        match retry_step(n_past_retries, events[0].0, events[0].1) {
            Some(next) => lemma_attempts_bounded(next, events.drop_first()),
            None => {},
        }
    }
}

/// When every attempt fails transiently and the policy always asks for a retry,
/// the request is sent exactly `MAXIMUM_NUMBER_OF_RETRIES + 1` times.
pub proof fn lemma_attempts_exhausted(n_past_retries: nat, events: Seq<(Option<Retryable>, bool)>)
    requires
        n_past_retries <= MAXIMUM_NUMBER_OF_RETRIES,
        events.len() >= MAXIMUM_NUMBER_OF_RETRIES + 1 - n_past_retries,
        forall|i: int| 0 <= i < events.len() ==> #[trigger] events[i] == (Some(Retryable::Transient), true),
    ensures
        attempts_made(n_past_retries, events) == MAXIMUM_NUMBER_OF_RETRIES + 1 - n_past_retries,
    decreases events.len(),
{
    assert(events[0] == (Some(Retryable::Transient), true));
    if n_past_retries < MAXIMUM_NUMBER_OF_RETRIES {
        let rest = events.drop_first();
        assert forall|i: int| 0 <= i < rest.len() implies #[trigger] rest[i] == (Some(Retryable::Transient), true) by {
            assert(rest[i] == events[i + 1]);
        }
        lemma_attempts_exhausted(n_past_retries + 1, rest);
    }
}

} // verus!
