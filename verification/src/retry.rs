//! Bookkeeping of a retried operation: when another attempt is owed, and
//! which error the caller finally sees.
//!
//! The driver that awaits the operation and sleeps between attempts asks a
//! [`RetryTracker`] before each attempt and after each failure; the delays
//! between attempts come from the configured backoff.

use vstd::prelude::*;
use crate::error::{CatcherError, ErrorCategory, spec_category};

verus! {

/// The shape of the delays between attempts.
#[derive(Debug, Clone, Copy, PartialEq, Eq, Structural)]
pub enum BackoffKind {
    Fixed,
    Exponential,
    DecorrelatedJitter,
}

impl Default for BackoffKind {
    fn default() -> (r: Self)
        ensures
            r == BackoffKind::Fixed,
    {
        BackoffKind::Fixed
    }
}

/// Retry settings.
#[derive(Debug, Clone, Copy)]
pub struct RetryConfig {
    /// The most executions of the operation, the first one included.
    pub max_attempts: u32,
    pub backoff: BackoffKind,
    pub min_backoff_ms: u64,
    pub max_backoff_ms: u64,
    pub jitter: bool,
}

/// After a failed attempt numbered `attempt`, another attempt is owed: the
/// error is retryable, the caller's predicate accepts it, and the limit is
/// not reached.
pub open spec fn spec_should_retry(e: CatcherError, retry_if: bool, attempt: u32, max_attempts: u32) -> bool {
    &&& spec_category(e) == ErrorCategory::Retryable
    &&& retry_if
    &&& attempt < max_attempts
}

/// The error the caller sees after `attempts` executions ended with `e`:
/// wrapped as an exhausted retry only when the operation ran more than once.
pub open spec fn spec_final_error(attempts: u32, e: CatcherError) -> CatcherError {
    if attempts > 1 {
        CatcherError::RetryExhausted { attempts, last_error: Box::new(e) }
    } else {
        e
    }
}

/// The most executions that a limit of `max_attempts` allows: the first
/// execution always happens.
pub open spec fn attempt_bound(max_attempts: u32) -> int {
    if max_attempts == 0 { 1 } else { max_attempts as int }
}

/// Counts the executions of a retried operation.
pub struct RetryTracker {
    attempts: u32,
    max_attempts: u32,
    may_start: bool,
}

impl RetryTracker {
    /// Executions started so far.
    pub closed spec fn spec_attempts(self) -> u32 {
        self.attempts
    }

    /// The configured limit.
    pub closed spec fn spec_max_attempts(self) -> u32 {
        self.max_attempts
    }

    /// Whether another execution may start now.
    pub closed spec fn spec_may_start(self) -> bool {
        self.may_start
    }

    /// The tracker's invariant: an execution may start only before the
    /// first one or after a granted retry, and the count never passes the
    /// bound.
    pub closed spec fn wf(self) -> bool {
        &&& self.may_start ==> (self.attempts == 0 || self.attempts < self.max_attempts)
        &&& self.attempts <= attempt_bound(self.max_attempts)
    }

    /// A tracker for a new operation under `config`.
    pub fn new(config: &RetryConfig) -> (t: RetryTracker)
        ensures
            t.wf(),
            t.spec_attempts() == 0,
            t.spec_max_attempts() == config.max_attempts,
            t.spec_may_start(),
    {
        RetryTracker { attempts: 0, max_attempts: config.max_attempts, may_start: true }
    }

    /// Executions started so far.
    pub fn attempts(&self) -> (n: u32)
        ensures
            n == self.spec_attempts(),
    {
        self.attempts
    }

    /// Records the start of an execution and returns its number (from 1).
    pub fn begin_attempt(&mut self) -> (n: u32)
        requires
            old(self).wf(),
            old(self).spec_may_start(),
        ensures
            final(self).wf(),
            n == old(self).spec_attempts() + 1,
            final(self).spec_attempts() == n,
            final(self).spec_max_attempts() == old(self).spec_max_attempts(),
            !final(self).spec_may_start(),
    {
        self.attempts = self.attempts + 1;
        self.may_start = false;
        self.attempts
    }

    /// After the current execution failed with `e`, decides whether another
    /// one is owed; `retry_if` is the caller's own verdict on `e`. When this
    /// returns true the caller is told of the retry, with the current count.
    pub fn should_retry(&mut self, e: &CatcherError, retry_if: bool) -> (r: bool)
        requires
            old(self).wf(),
            !old(self).spec_may_start(),
        ensures
            final(self).wf(),
            r == spec_should_retry(*e, retry_if, old(self).spec_attempts(), old(self).spec_max_attempts()),
            final(self).spec_may_start() == r,
            final(self).spec_attempts() == old(self).spec_attempts(),
            final(self).spec_max_attempts() == old(self).spec_max_attempts(),
    {
        let r = e.category() == ErrorCategory::Retryable && retry_if && self.attempts < self.max_attempts;
        self.may_start = r;
        r
    }

    /// The error handed to the caller when the operation finally failed with `e`.
    pub fn finish(&self, e: CatcherError) -> (r: CatcherError)
        ensures
            r == spec_final_error(self.spec_attempts(), e),
    {
        if self.attempts > 1 {
            CatcherError::RetryExhausted { attempts: self.attempts, last_error: Box::new(e) }
        } else {
            e
        }
    }
}

/// The operation never runs more often than the limit allows (and at least
/// once): every tracker state reached through its methods keeps the count
/// within the bound.
pub proof fn attempts_stay_within_limit(t: RetryTracker)
    requires
        t.wf(),
    ensures
        t.spec_attempts() <= attempt_bound(t.spec_max_attempts()),
        t.spec_may_start() ==> t.spec_attempts() + 1 <= attempt_bound(t.spec_max_attempts()),
{
}

/// A non-retryable error ends the operation at once, whatever the caller's
/// predicate says and however many attempts remain.
pub proof fn non_retryable_fails_fast(e: CatcherError, retry_if: bool, attempt: u32, max_attempts: u32)
    requires
        spec_category(e) == ErrorCategory::NonRetryable,
    ensures
        !spec_should_retry(e, retry_if, attempt, max_attempts),
{
}

/// An already exhausted retry returned by the first execution is neither
/// retried nor wrapped again: the caller gets it unchanged.
pub proof fn exhausted_error_is_not_retried_or_nested(attempts: u32, last: CatcherError, retry_if: bool, max_attempts: u32)
    ensures
        !spec_should_retry(CatcherError::RetryExhausted { attempts, last_error: Box::new(last) }, retry_if, 1, max_attempts),
        spec_final_error(1, CatcherError::RetryExhausted { attempts, last_error: Box::new(last) })
            == (CatcherError::RetryExhausted { attempts, last_error: Box::new(last) }),
{
}

/// The final error is wrapped exactly when the operation ran more than once,
/// and the wrapper records the number of executions and the last error.
pub proof fn final_error_wraps_only_after_retries(attempts: u32, e: CatcherError)
    ensures
        attempts <= 1 ==> spec_final_error(attempts, e) == e,
        attempts > 1 ==> (spec_final_error(attempts, e) matches CatcherError::RetryExhausted { attempts: n, last_error }
            && n == attempts && *last_error == e),
{
}

} // verus!
