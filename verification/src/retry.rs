//! Bounded retry with a fixed delay between attempts.
//!
//! The policy is a small state machine. The caller performs the attempt and
//! the waiting; the machine says when an attempt may start, what progress is
//! to be shown at its start, and what follows from its outcome.

use crate::coordinator::OperationKind;
use crate::error::{ApiError, PixelDrainError};
use crate::progress::Progress;
use vstd::prelude::*;
use vstd::string::*;

verus! {

/// Attempts granted to uploads and to operations on listings.
pub const UPLOAD_ATTEMPTS: u32 = 3;

/// Attempts granted to downloads.
pub const DOWNLOAD_ATTEMPTS: u32 = 5;

/// Seconds to wait between two attempts.
pub const RETRY_DELAY_SECS: u64 = 3;

/// How often an operation is attempted and how long to wait in between.
#[derive(Clone, Copy, Debug, PartialEq, Eq, Structural)]
pub struct RetryPolicy {
    /// The budget: the largest number of attempts.
    pub max_attempts: u32,
    /// Seconds to wait before the next attempt.
    pub delay_secs: u64,
}

/// Where a retried operation stands.
#[derive(Clone, Copy, Debug, PartialEq, Eq, Structural)]
pub enum Phase {
    /// The next attempt may start.
    Ready,
    /// An attempt is under way.
    Running,
    /// The operation has ended; no further attempt will be made.
    Finished,
}

/// What follows from a failed attempt.
#[derive(Clone, Copy, Debug, PartialEq, Eq, Structural)]
pub enum RetryDecision {
    /// Wait for the given number of seconds, then start the next attempt.
    RetryAfter { delay_secs: u64 },
    /// Hand the error to the caller.
    GiveUp,
}

/// The state of one retried operation.
#[derive(Clone, Copy, Debug, PartialEq, Eq, Structural)]
pub struct RetryState {
    /// The policy in force.
    pub policy: RetryPolicy,
    /// Attempts started so far.
    pub attempts: u32,
    /// Where the operation stands.
    pub phase: Phase,
}

/// What a failed attempt leads to under `policy` when it was attempt number
/// `attempt`: a retry after the fixed delay if the error is retryable and the
/// budget is not used up, and the end of the operation otherwise.
pub open spec fn decision_after(
    policy: RetryPolicy,
    attempt: u32,
    error: PixelDrainError,
) -> RetryDecision {
    if error.retryable() && attempt < policy.max_attempts {
        RetryDecision::RetryAfter { delay_secs: policy.delay_secs }
    } else {
        RetryDecision::GiveUp
    }
}

impl RetryPolicy {
    /// The policy for uploads and for operations on listings.
    pub fn for_uploads() -> (p: RetryPolicy)
        ensures
            p == (RetryPolicy { max_attempts: UPLOAD_ATTEMPTS, delay_secs: RETRY_DELAY_SECS }),
    {
        RetryPolicy { max_attempts: UPLOAD_ATTEMPTS, delay_secs: RETRY_DELAY_SECS }
    }

    /// The policy for downloads.
    pub fn for_downloads() -> (p: RetryPolicy)
        ensures
            p == (RetryPolicy { max_attempts: DOWNLOAD_ATTEMPTS, delay_secs: RETRY_DELAY_SECS }),
    {
        RetryPolicy { max_attempts: DOWNLOAD_ATTEMPTS, delay_secs: RETRY_DELAY_SECS }
    }

    /// The policy for operations of the category `kind`: downloads have the
    /// larger budget, every other category that of uploads.
    pub fn for_operation(kind: OperationKind) -> (p: RetryPolicy)
        ensures
            p.delay_secs == RETRY_DELAY_SECS,
            p.max_attempts == if kind == OperationKind::Download {
                DOWNLOAD_ATTEMPTS
            } else {
                UPLOAD_ATTEMPTS
            },
    {
        match kind {
            OperationKind::Download => RetryPolicy::for_downloads(),
            _ => RetryPolicy::for_uploads(),
        }
    }

    /// Decides what follows from the failure of attempt number `attempt`.
    pub fn decide(&self, attempt: u32, error: &PixelDrainError) -> (d: RetryDecision)
        ensures
            d == decision_after(*self, attempt, *error),
    {
        if error.is_retryable() && attempt < self.max_attempts {
            RetryDecision::RetryAfter { delay_secs: self.delay_secs }
        } else {
            RetryDecision::GiveUp
        }
    }
}

impl RetryState {
    /// The number of attempts never exceeds the budget; an attempt that is
    /// under way has been counted; and a further attempt is offered only
    /// while the budget is not used up.
    pub open spec fn wf(self) -> bool {
        &&& self.attempts <= self.policy.max_attempts
        &&& self.phase == Phase::Running ==> self.attempts >= 1
        &&& self.phase == Phase::Ready ==> self.attempts < self.policy.max_attempts
    }

    /// A fresh operation under `policy`. With an empty budget it is finished
    /// before it has begun.
    pub fn new(policy: RetryPolicy) -> (s: RetryState)
        ensures
            s.wf(),
            s.policy == policy,
            s.attempts == 0,
            s.phase == if policy.max_attempts > 0 {
                Phase::Ready
            } else {
                Phase::Finished
            },
    {
        let phase: Phase = if policy.max_attempts > 0 {
            Phase::Ready
        } else {
            Phase::Finished
        };
        RetryState { policy, attempts: 0, phase }
    }

    /// Whether the next attempt may start.
    pub fn can_start(&self) -> (b: bool)
        ensures
            b == (self.phase == Phase::Ready),
    {
        self.phase == Phase::Ready
    }

    /// Whether an attempt is under way.
    pub fn is_running(&self) -> (b: bool)
        ensures
            b == (self.phase == Phase::Running),
    {
        self.phase == Phase::Running
    }

    /// Starts the next attempt and gives the progress to show at its start,
    /// which is zero for every attempt.
    pub fn start_attempt(&mut self) -> (shown: Progress)
        requires
            old(self).wf(),
            old(self).phase == Phase::Ready,
        ensures
            final(self).wf(),
            final(self).policy == old(self).policy,
            final(self).attempts == old(self).attempts + 1,
            final(self).phase == Phase::Running,
            shown == (Progress { num: 0, den: 1 }),
            shown.is_zero(),
    {
        self.attempts = self.attempts + 1;
        self.phase = Phase::Running;
        Progress::zero()
    }

    /// Records that the attempt under way has succeeded and gives the
    /// progress to show, which is one.
    pub fn succeed(&mut self) -> (shown: Progress)
        requires
            old(self).wf(),
            old(self).phase == Phase::Running,
        ensures
            final(self).wf(),
            final(self).policy == old(self).policy,
            final(self).attempts == old(self).attempts,
            final(self).phase == Phase::Finished,
            shown == (Progress { num: 1, den: 1 }),
            shown.is_complete(),
    {
        self.phase = Phase::Finished;
        Progress::complete()
    }

    /// Records that the attempt under way has failed with `error` and decides
    /// what follows. After `RetryAfter` the next attempt may start; after
    /// `GiveUp` the operation is finished and `error` goes to the caller.
    pub fn fail(&mut self, error: &PixelDrainError) -> (d: RetryDecision)
        requires
            old(self).wf(),
            old(self).phase == Phase::Running,
        ensures
            final(self).wf(),
            final(self).policy == old(self).policy,
            final(self).attempts == old(self).attempts,
            d == decision_after(old(self).policy, old(self).attempts, *error),
            final(self).phase == if d == RetryDecision::GiveUp {
                Phase::Finished
            } else {
                Phase::Ready
            },
    {
        let d: RetryDecision = self.policy.decide(self.attempts, error);
        match d {
            RetryDecision::RetryAfter { .. } => {
                self.phase = Phase::Ready;
            },
            RetryDecision::GiveUp => {
                self.phase = Phase::Finished;
            },
        }
        d
    }
}

/// The error that stands for an operation whose budget ran out without any
/// attempt leaving an error of its own.
pub fn exhausted(operation: &str) -> (e: PixelDrainError)
    ensures
        e matches PixelDrainError::Api(api) && api.status == 500 && api.value@ == "error"@
            && api.message@ == operation@ + " failed after all retry attempts"@,
{
    PixelDrainError::Api(
        ApiError {
            status: 500,
            value: String::from_str("error"),
            message: String::from_str(operation).concat(" failed after all retry attempts"),
        },
    )
}

/// How a whole operation went: the attempts that were started, and whether
/// the last of them succeeded.
#[derive(Clone, Copy, Debug, PartialEq, Eq, Structural)]
pub struct RetrySummary {
    /// Attempts started, each of them with progress shown as zero.
    pub attempts: u32,
    /// Whether the operation ended in success.
    pub succeeded: bool,
}

/// The course of an operation under `policy` that has started `started`
/// attempts so far and whose further attempts end as `outcomes` says, in
/// order: `None` for a success, `Some(e)` for a failure with the error `e`.
/// Outcomes beyond the end of the operation are never looked at.
pub open spec fn course(
    policy: RetryPolicy,
    outcomes: Seq<Option<PixelDrainError>>,
    started: u32,
) -> RetrySummary
    decreases outcomes.len(),
{
    if started >= policy.max_attempts || outcomes.len() == 0 {
        RetrySummary { attempts: started, succeeded: false }
    } else {
        let number = (started + 1) as u32;
        match outcomes[0] {
            None => RetrySummary { attempts: number, succeeded: true },
            Some(error) => if decision_after(policy, number, error) == RetryDecision::GiveUp {
                RetrySummary { attempts: number, succeeded: false }
            } else {
                course(policy, outcomes.drop_first(), number)
            },
        }
    }
}

/// Whatever the outcomes of the attempts are, an operation never starts more
/// attempts than its budget allows, and never fewer than it had started
/// already.
pub proof fn lemma_attempts_within_budget(
    policy: RetryPolicy,
    outcomes: Seq<Option<PixelDrainError>>,
    started: u32,
)
    requires
        started <= policy.max_attempts,
    ensures
        started <= course(policy, outcomes, started).attempts <= policy.max_attempts,
    decreases outcomes.len(),
{
    if started >= policy.max_attempts || outcomes.len() == 0 {
    } else {
        let number = (started + 1) as u32;
        match outcomes[0] {
            None => {},
            Some(error) => {
                if decision_after(policy, number, error) != RetryDecision::GiveUp {
                    lemma_attempts_within_budget(policy, outcomes.drop_first(), number);
                }
            },
        }
    }
}

/// An operation whose every attempt fails with a retryable error uses up its
/// budget exactly and ends in failure: it is never retried without end and
/// never dropped.
pub proof fn lemma_persistent_failure_uses_budget(
    policy: RetryPolicy,
    outcomes: Seq<Option<PixelDrainError>>,
    started: u32,
)
    requires
        started <= policy.max_attempts,
        outcomes.len() >= policy.max_attempts - started,
        forall|i: int|
            0 <= i < outcomes.len() ==> (#[trigger] outcomes[i] matches Some(e) && e.retryable()),
    ensures
        course(policy, outcomes, started) == (RetrySummary {
            attempts: policy.max_attempts,
            succeeded: false,
        }),
    decreases outcomes.len(),
{
    if started >= policy.max_attempts || outcomes.len() == 0 {
    } else {
        let number = (started + 1) as u32;
        let rest = outcomes.drop_first();
        assert forall|i: int| 0 <= i < rest.len() implies (#[trigger] rest[i] matches Some(e)
            && e.retryable()) by {
        }
        if number < policy.max_attempts {
            lemma_persistent_failure_uses_budget(policy, rest, number);
        }
    }
}

impl RetryState {
    /// Runs a fresh operation through the machine, with the outcomes of its
    /// attempts given in advance, and says how it went.
    pub fn run_scripted(policy: RetryPolicy, outcomes: &Vec<Option<PixelDrainError>>) -> (summary:
        RetrySummary)
        ensures
            summary == course(policy, outcomes@, 0),
            summary.attempts <= policy.max_attempts,
    {
        let mut state: RetryState = RetryState::new(policy);
        let mut i: usize = 0;
        let mut succeeded: bool = false;
        proof {
            lemma_attempts_within_budget(policy, outcomes@, 0);
            assert(outcomes@.subrange(0, outcomes.len() as int) == outcomes@);
        }
        while i < outcomes.len() && state.can_start()
            invariant
                state.wf(),
                state.policy == policy,
                i <= outcomes.len(),
                state.phase != Phase::Running,
                succeeded ==> state.phase == Phase::Finished,
                state.phase == Phase::Finished ==> course(policy, outcomes@, 0) == (RetrySummary {
                    attempts: state.attempts,
                    succeeded,
                }),
                state.phase == Phase::Ready ==> course(policy, outcomes@, 0) == course(
                    policy,
                    outcomes@.subrange(i as int, outcomes.len() as int),
                    state.attempts,
                ),
            decreases outcomes.len() - i,
        {
            let ghost rest = outcomes@.subrange(i as int, outcomes.len() as int);
            assert(rest.drop_first() == outcomes@.subrange(i + 1, outcomes.len() as int));
            let _ = state.start_attempt();
            match &outcomes[i] {
                None => {
                    let _ = state.succeed();
                    succeeded = true;
                },
                Some(error) => {
                    let _ = state.fail(error);
                },
            }
            i = i + 1;
        }
        RetrySummary { attempts: state.attempts, succeeded }
    }
}

} // verus!
