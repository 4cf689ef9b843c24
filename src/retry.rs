use vstd::prelude::*;

verus! {

/// The class of a failed storage operation.
#[derive(Debug, Clone, Copy, PartialEq, Eq, Structural)]
pub enum ErrorClass {
    /// The object does not exist: a definitive answer.
    NotFound,
    /// A network or generic provider error, which may pass.
    Transient,
    /// Any other failure, such as a validation error or a buffer too small.
    Other,
}

/// What to do after an operation failed.
#[derive(Debug, Clone, Copy, PartialEq, Eq, Structural)]
pub enum RetryDecision {
    /// Wait `delay_ms` milliseconds, then run the operation again.
    Retry { delay_ms: u64 },
    /// Surface the failure.
    Stop,
}

/// Bounded retries with a fixed delay, for transient failures only.
#[derive(Debug, Clone, Copy, PartialEq, Eq, Structural)]
pub struct RetryPolicy {
    pub max_attempts: usize,
    pub delay_ms: u64,
}

/// How many runs a policy allows: a limit of zero allows one, since every
/// operation runs at least once.
pub open spec fn attempt_limit(policy: RetryPolicy) -> nat {
    if policy.max_attempts == 0 {
        1
    } else {
        policy.max_attempts as nat
    }
}

/// The decision after `attempts` runs of an operation, the last of which
/// failed with `class`.
pub open spec fn retry_decision(policy: RetryPolicy, attempts: nat, class: ErrorClass) -> RetryDecision {
    if class == ErrorClass::Transient && attempts < attempt_limit(policy) {
        RetryDecision::Retry { delay_ms: policy.delay_ms }
    } else {
        RetryDecision::Stop
    }
}

impl RetryPolicy {
    /// A policy that runs an operation at most `max_attempts` times (at least
    /// once) and waits `delay_ms` milliseconds between runs.
    pub fn new(max_attempts: usize, delay_ms: u64) -> (r: RetryPolicy)
        ensures
            r.max_attempts == (if max_attempts == 0 { 1 } else { max_attempts }),
            r.delay_ms == delay_ms,
    {
        RetryPolicy { max_attempts: if max_attempts == 0 { 1 } else { max_attempts }, delay_ms }
    }

    /// Decides what follows a failure after `attempts` runs of an operation.
    pub fn decide(&self, attempts: usize, class: ErrorClass) -> (r: RetryDecision)
        ensures
            r == retry_decision(*self, attempts as nat, class),
    {
        let limit: usize = if self.max_attempts == 0 {
            1
        } else {
            self.max_attempts
        };
        if class == ErrorClass::Transient && attempts < limit {
            RetryDecision::Retry { delay_ms: self.delay_ms }
        } else {
            RetryDecision::Stop
        }
    }
}

} // verus!
