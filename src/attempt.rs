//! The decisions of one transfer attempt bounded by a deadline.

use vstd::prelude::*;
use crate::transfer::{AttemptOutcome, TransferReport};

verus! {

/// What the context running a transfer attempt does next.
#[derive(Clone, Copy, Debug, PartialEq, Eq, Structural)]
pub enum AttemptStep {
    /// Probe both guards once (`BankAccount::try_transfer`).
    Probe,
    /// Hold no guard and sleep for the poll interval, then report the clock.
    Pause,
    /// The attempt is over.
    Finish(AttemptOutcome),
}

/// The time `budget` after `now`, or the end of the clock where that is later.
pub open spec fn deadline_after(now: u64, budget: u64) -> u64 {
    if now + budget <= u64::MAX {
        (now + budget) as u64
    } else {
        u64::MAX
    }
}

/// After a probe that found a guard taken, at clock reading `now`.
pub open spec fn step_after_miss(deadline: u64, now: u64) -> AttemptStep {
    if now < deadline {
        AttemptStep::Pause
    } else {
        AttemptStep::Finish(AttemptOutcome::Timeout)
    }
}

/// After a pause, on waking at clock reading `now`.
pub open spec fn step_after_pause(deadline: u64, now: u64) -> AttemptStep {
    if now < deadline {
        AttemptStep::Probe
    } else {
        AttemptStep::Finish(AttemptOutcome::Timeout)
    }
}

/// After a probe that found `found` (`None`: a guard was taken elsewhere).
pub open spec fn step_after_probe(deadline: u64, found: Option<TransferReport>, now: u64) -> AttemptStep {
    match found {
        Some(rep) => AttemptStep::Finish(rep.settlement.outcome),
        None => step_after_miss(deadline, now),
    }
}

/// One coordinated transfer attempt: probes of both guards, separated by
/// pauses, within one deadline shared by the two acquisitions.
///
/// The first step is always a probe, even where the budget is zero. A probe
/// that finds either guard taken gives back whatever it took, so no guard is
/// held during a pause; after each pause the deadline is checked again before
/// the next probe.
pub struct TransferAttempt {
    deadline: u64,
}

impl TransferAttempt {
    pub closed spec fn deadline_spec(&self) -> u64 {
        self.deadline
    }

    /// An attempt started at clock reading `now` with `budget` to spend.
    pub fn start(now: u64, budget: u64) -> (r: TransferAttempt)
        ensures
            r.deadline_spec() == deadline_after(now, budget),
    {
        let deadline = match now.checked_add(budget) {
            Some(d) => d,
            None => u64::MAX,
        };
        TransferAttempt { deadline }
    }

    pub fn deadline(&self) -> (r: u64)
        ensures
            r == self.deadline_spec(),
    {
        self.deadline
    }

    /// The step that opens every attempt.
    pub fn first_step(&self) -> (r: AttemptStep)
        ensures
            r == AttemptStep::Probe,
    {
        AttemptStep::Probe
    }

    /// The step after a probe that returned `found`, at clock reading `now`.
    pub fn after_probe(&self, found: &Option<TransferReport>, now: u64) -> (r: AttemptStep)
        ensures
            r == step_after_probe(self.deadline_spec(), *found, now),
    {
        match found {
            Some(rep) => AttemptStep::Finish(rep.settlement.outcome),
            None => if now < self.deadline {
                AttemptStep::Pause
            } else {
                AttemptStep::Finish(AttemptOutcome::Timeout)
            },
        }
    }

    /// The step after a pause, on waking at clock reading `now`.
    pub fn after_pause(&self, now: u64) -> (r: AttemptStep)
        ensures
            r == step_after_pause(self.deadline_spec(), now),
    {
        if now < self.deadline {
            AttemptStep::Probe
        } else {
            AttemptStep::Finish(AttemptOutcome::Timeout)
        }
    }
}

/// Once the clock reads the deadline or later, an attempt neither pauses nor
/// probes again: a miss or a wake-up ends it with `Timeout`. Before the
/// deadline it never times out.
pub proof fn lemma_attempt_ends_at_deadline(deadline: u64, now: u64)
    ensures
        now >= deadline ==> step_after_miss(deadline, now) == AttemptStep::Finish(
            AttemptOutcome::Timeout,
        ),
        now >= deadline ==> step_after_pause(deadline, now) == AttemptStep::Finish(
            AttemptOutcome::Timeout,
        ),
        now < deadline ==> step_after_miss(deadline, now) == AttemptStep::Pause,
        now < deadline ==> step_after_pause(deadline, now) == AttemptStep::Probe,
{
}

proof fn lemma_wake_lower_bound(start: u64, poll: u64, wakes: Seq<u64>, i: int)
    requires
        0 <= i < wakes.len(),
        wakes[0] >= start + poll,
        forall|j: int| 0 <= j < wakes.len() - 1 ==> #[trigger] wakes[j + 1] >= wakes[j] + poll,
    ensures
        wakes[i] >= start + (i + 1) * poll,
    decreases i,
{
    if i > 0 {
        lemma_wake_lower_bound(start, poll, wakes, i - 1);
        assert(wakes[(i - 1) + 1] >= wakes[i - 1] + poll);
        assert((i + 1) * poll == i * poll + poll) by (nonlinear_arith);
    } else {
        assert((i + 1) * poll == poll) by (nonlinear_arith)
            requires
                i == 0,
        ;
    }
}

/// An attempt cannot be kept alive by pauses past its deadline: where every
/// pause lasts at least `poll` (which is positive) and every wake-up led to
/// another probe, the wake-ups number fewer than `budget / poll`, so together
/// they took less than the budget.
pub proof fn lemma_wakeups_bounded(start: u64, budget: u64, poll: u64, wakes: Seq<u64>)
    requires
        poll > 0,
        wakes.len() > 0 ==> wakes[0] >= start + poll,
        forall|j: int| 0 <= j < wakes.len() - 1 ==> #[trigger] wakes[j + 1] >= wakes[j] + poll,
        forall|j: int|
            0 <= j < wakes.len() ==> #[trigger] step_after_pause(deadline_after(start, budget), wakes[j])
                == AttemptStep::Probe,
    ensures
        wakes.len() > 0 ==> wakes.len() * poll < budget,
{
    if wakes.len() > 0 {
        let last = wakes.len() - 1;
        lemma_wake_lower_bound(start, poll, wakes, last);
        assert(step_after_pause(deadline_after(start, budget), wakes[last]) == AttemptStep::Probe);
    }
}

} // verus!
