use vstd::prelude::*;

verus! {

/// How many centering attempts one invocation may make before giving up.
pub const MAX_ATTEMPTS: u8 = 50;

/// How long to wait between two attempts, in milliseconds.
pub const RETRY_DELAY_MS: u32 = 10;

/// The diagnostic notice is due when this many attempts have failed: the
/// first attempt plus ten retries, about a hundred milliseconds in.
pub const DIAGNOSE_AT: u8 = 11;

/// How one centering attempt ended. Every failure is recoverable and is
/// handled by retrying; none is ever surfaced to the caller.
#[derive(Clone, Copy, PartialEq, Eq, Structural, Debug)]
pub enum AttemptOutcome {
    /// A window was selected and the move was applied.
    Success,
    /// No window of the process qualified this attempt.
    CandidateNotFound,
    /// A rectangle or monitor query failed.
    GeometryQueryFailure,
    /// The window system refused the move; worth a warning in a log.
    RepositionFailure,
}

/// Where one invocation's retry schedule stands.
#[derive(Clone, Copy, PartialEq, Eq, Structural, Debug)]
pub enum DriverStatus {
    /// Attempts are still owed.
    Running,
    /// An attempt succeeded; the schedule ended early.
    Succeeded,
    /// Every scheduled attempt failed. The window stays wherever the system
    /// placed it: a degraded outcome, not an error.
    GaveUp,
}

/// What the loop that runs the schedule must do after an attempt.
#[derive(Clone, Copy, PartialEq, Eq, Structural, Debug)]
pub enum RetryAction {
    /// Stop: an attempt succeeded or the budget is spent.
    Stop,
    /// Wait delay_ms, then run the next attempt; diagnose asks for the one
    /// informational notice that the window is still being looked for.
    Retry { delay_ms: u32, diagnose: bool },
}

/// The bounded retry schedule of one invocation: up to MAX_ATTEMPTS attempts,
/// RETRY_DELAY_MS apart, stopping on the first success. The driver only
/// decides; running an attempt and waiting between attempts is the loop's
/// business.
pub struct RetryDriver {
    pub attempts_made: u8,
    pub status: DriverStatus,
}

impl RetryDriver {
    /// The attempt count never passes the budget; the schedule still runs
    /// exactly when budget is left, and gave up only with the budget spent.
    pub open spec fn wf(self) -> bool {
        &&& self.attempts_made <= MAX_ATTEMPTS
        &&& (self.status is Running ==> self.attempts_made < MAX_ATTEMPTS)
        &&& (self.status is GaveUp ==> self.attempts_made == MAX_ATTEMPTS)
        &&& (self.status is Succeeded ==> 0 < self.attempts_made)
    }

    pub fn new() -> (d: RetryDriver)
        ensures
            d.wf(),
            d.attempts_made == 0,
            d.status is Running,
    {
        RetryDriver { attempts_made: 0, status: DriverStatus::Running }
    }

    /// Whether another attempt is still owed.
    pub fn pending(&self) -> (r: bool)
        ensures
            r == (self.status is Running),
    {
        self.status == DriverStatus::Running
    }

    /// Records that one attempt ran and how it ended, and says what to do
    /// next: stop on the first success or once MAX_ATTEMPTS attempts have
    /// failed; otherwise wait RETRY_DELAY_MS and try again, asking for the
    /// diagnostic notice exactly when the DIAGNOSE_AT-th attempt has just
    /// failed. All failures are treated alike.
    pub fn record(&mut self, outcome: AttemptOutcome) -> (a: RetryAction)
        requires
            old(self).wf(),
            old(self).status is Running,
        ensures
            final(self).wf(),
            final(self).attempts_made == old(self).attempts_made + 1,
            outcome is Success ==> final(self).status is Succeeded && a is Stop,
            !(outcome is Success) && old(self).attempts_made + 1 == MAX_ATTEMPTS ==> final(self).status is GaveUp
                && a is Stop,
            !(outcome is Success) && old(self).attempts_made + 1 < MAX_ATTEMPTS ==> final(self).status is Running
                && a == (RetryAction::Retry {
                delay_ms: RETRY_DELAY_MS,
                diagnose: old(self).attempts_made + 1 == DIAGNOSE_AT,
            }),
    {
        self.attempts_made = self.attempts_made + 1;
        if outcome == AttemptOutcome::Success {
            self.status = DriverStatus::Succeeded;
            RetryAction::Stop
        } else if self.attempts_made == MAX_ATTEMPTS {
            self.status = DriverStatus::GaveUp;
            RetryAction::Stop
        } else {
            RetryAction::Retry { delay_ms: RETRY_DELAY_MS, diagnose: self.attempts_made == DIAGNOSE_AT }
        }
    }
}

} // verus!
