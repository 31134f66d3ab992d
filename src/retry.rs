//! The bounded retry policy around transfer attempts.

use vstd::prelude::*;
use crate::transfer::AttemptOutcome;

verus! {

/// How a retried transfer ended.
#[derive(Clone, Copy, Debug, PartialEq, Eq, Structural)]
pub enum FinalOutcome {
    Success,
    /// Permanent: retrying cannot change the balances.
    InsufficientValue,
    /// Permanent: a new balance would not fit in an `i32`.
    OutOfRange,
    /// Every allowed attempt timed out.
    RetriesExhausted,
}

/// What the context running the retry loop does next.
#[derive(Clone, Copy, Debug, PartialEq, Eq, Structural)]
pub enum RetryStep {
    /// Start an attempt now.
    Attempt,
    /// Sleep for the inter-attempt delay, then start an attempt with a fresh
    /// deadline.
    WaitThenAttempt,
    /// The loop is over.
    Finish(FinalOutcome),
}

/// The step that opens a loop allowed `max_attempts` attempts.
pub open spec fn opening_step(max_attempts: u32) -> RetryStep {
    if max_attempts == 0 {
        RetryStep::Finish(FinalOutcome::RetriesExhausted)
    } else {
        RetryStep::Attempt
    }
}

/// The step after the `made`-th attempt ended with `outcome`.
pub open spec fn retry_decision(max_attempts: u32, made: int, outcome: AttemptOutcome) -> RetryStep {
    match outcome {
        AttemptOutcome::Success => RetryStep::Finish(FinalOutcome::Success),
        AttemptOutcome::InsufficientValue => RetryStep::Finish(FinalOutcome::InsufficientValue),
        AttemptOutcome::OutOfRange => RetryStep::Finish(FinalOutcome::OutOfRange),
        AttemptOutcome::Timeout => if made < max_attempts {
            RetryStep::WaitThenAttempt
        } else {
            RetryStep::Finish(FinalOutcome::RetriesExhausted)
        },
    }
}

/// A bounded retry policy around transfer attempts: only a timeout is
/// retried, and at most `max_attempts` attempts are made in all.
pub struct RetryLoop {
    max_attempts: u32,
    attempts: u32,
}

impl RetryLoop {
    pub closed spec fn max_attempts_spec(&self) -> u32 {
        self.max_attempts
    }

    /// The attempts made so far.
    pub closed spec fn attempts_spec(&self) -> u32 {
        self.attempts
    }

    pub open spec fn wf(&self) -> bool {
        self.attempts_spec() <= self.max_attempts_spec()
    }

    /// A loop that has made no attempt yet, and the step it opens with.
    pub fn new(max_attempts: u32) -> (r: (RetryLoop, RetryStep))
        ensures
            r.0.wf(),
            r.0.max_attempts_spec() == max_attempts,
            r.0.attempts_spec() == 0,
            r.1 == opening_step(max_attempts),
    {
        let step = if max_attempts == 0 {
            RetryStep::Finish(FinalOutcome::RetriesExhausted)
        } else {
            RetryStep::Attempt
        };
        (RetryLoop { max_attempts, attempts: 0 }, step)
    }

    pub fn max_attempts(&self) -> (r: u32)
        ensures
            r == self.max_attempts_spec(),
    {
        self.max_attempts
    }

    pub fn attempts(&self) -> (r: u32)
        ensures
            r == self.attempts_spec(),
    {
        self.attempts
    }

    /// Whether the policy allows one more attempt.
    pub fn can_attempt(&self) -> (r: bool)
        ensures
            r == (self.attempts_spec() < self.max_attempts_spec()),
    {
        self.attempts < self.max_attempts
    }

    /// Counts an attempt that ended with `outcome`, and decides what follows.
    pub fn record(&mut self, outcome: AttemptOutcome) -> (r: RetryStep)
        requires
            old(self).wf(),
            old(self).attempts_spec() < old(self).max_attempts_spec(),
        ensures
            final(self).wf(),
            final(self).max_attempts_spec() == old(self).max_attempts_spec(),
            final(self).attempts_spec() == old(self).attempts_spec() + 1,
            r == retry_decision(
                old(self).max_attempts_spec(),
                old(self).attempts_spec() + 1,
                outcome,
            ),
    {
        self.attempts = self.attempts + 1;
        match outcome {
            AttemptOutcome::Success => RetryStep::Finish(FinalOutcome::Success),
            AttemptOutcome::InsufficientValue => RetryStep::Finish(FinalOutcome::InsufficientValue),
            AttemptOutcome::OutOfRange => RetryStep::Finish(FinalOutcome::OutOfRange),
            AttemptOutcome::Timeout => if self.attempts < self.max_attempts {
                RetryStep::WaitThenAttempt
            } else {
                RetryStep::Finish(FinalOutcome::RetriesExhausted)
            },
        }
    }
}

/// With `max_attempts` allowed and every attempt timing out, the loop makes
/// exactly `max_attempts` attempts: the first starts at once, each of the
/// first `max_attempts - 1` timeouts is followed by a wait and a new attempt,
/// and the last ends the loop with `RetriesExhausted`. So there are
/// `max_attempts - 1` waits.
pub proof fn lemma_timeouts_exhaust(max_attempts: u32)
    requires
        max_attempts >= 1,
    ensures
        opening_step(max_attempts) == RetryStep::Attempt,
        forall|made: int|
            1 <= made < max_attempts ==> #[trigger] retry_decision(
                max_attempts,
                made,
                AttemptOutcome::Timeout,
            ) == RetryStep::WaitThenAttempt,
        retry_decision(max_attempts, max_attempts as int, AttemptOutcome::Timeout)
            == RetryStep::Finish(FinalOutcome::RetriesExhausted),
{
}

/// A permanent failure is never retried, however many attempts are left.
pub proof fn lemma_permanent_failure_not_retried(max_attempts: u32, made: int)
    ensures
        retry_decision(max_attempts, made, AttemptOutcome::InsufficientValue) == RetryStep::Finish(
            FinalOutcome::InsufficientValue,
        ),
        retry_decision(max_attempts, made, AttemptOutcome::OutOfRange) == RetryStep::Finish(
            FinalOutcome::OutOfRange,
        ),
{
}

} // verus!
