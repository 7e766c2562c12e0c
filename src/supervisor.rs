//! The host-side supervisor: it polls for the running guest's identity and
//! keeps at most one listener task, bound to the current identity.
//!
//! Also here: the bounded-retry policy that listener tasks and the guest's
//! first contact with the host follow.
use vstd::prelude::*;
use crate::vmid::VmId;

verus! {

/// Seconds between two polls of the guest's identity.
pub const POLL_INTERVAL_SECS: u64 = 5;

/// Attempts a listener task makes to bind and serve before the process
/// gives up.
pub const LISTEN_ATTEMPTS: u32 = 3;

/// Seconds a listener task waits after a failed attempt.
pub const LISTEN_RETRY_DELAY_SECS: u64 = 1;

/// Retries the guest makes when connecting to the host times out.
pub const HOST_PROBE_RETRIES: u32 = 5;

/// The supervisor's state: the identity last seen, and whether a listener
/// task for it is running.
#[derive(Clone, Copy, Debug, PartialEq, Eq, Structural)]
pub struct Supervisor {
    pub current: Option<VmId>,
    pub running: bool,
}

/// What the supervisor does after a poll.
#[derive(Clone, Copy, Debug, PartialEq, Eq, Structural)]
pub struct PollAction {
    /// Abort the running listener task at once, without draining it.
    pub cancel: bool,
    /// Then start a listener task bound to this identity.
    pub start: Option<VmId>,
}

impl Supervisor {
    /// A task runs exactly when an identity is known.
    pub open spec fn wf(self) -> bool {
        self.running <==> self.current is Some
    }

    /// The state and action after a poll that found `seen`.
    pub open spec fn poll_next(self, seen: Option<VmId>) -> (Supervisor, PollAction) {
        if seen == self.current {
            (self, PollAction { cancel: false, start: None })
        } else {
            (
                Supervisor { current: seen, running: seen is Some },
                PollAction { cancel: self.running, start: seen },
            )
        }
    }

    /// Idle: no identity seen, no task.
    pub fn new() -> (r: Supervisor)
        ensures
            r.wf(),
            r == (Supervisor { current: None, running: false }),
    {
        Supervisor { current: None, running: false }
    }

    /// Takes the identity found by a poll. An unchanged identity (absent
    /// both times included) changes nothing; a changed one cancels the
    /// running task, then starts one for the new identity if there is one.
    pub fn poll(&mut self, seen: Option<VmId>) -> (r: PollAction)
        requires
            old(self).wf(),
        ensures
            final(self).wf(),
            (*final(self), r) == old(self).poll_next(seen),
    {
        if seen == self.current {
            return PollAction { cancel: false, start: None };
        }
        let cancel = self.running;
        self.current = seen;
        self.running = seen.is_some();
        PollAction { cancel, start: seen }
    }
}

/// At most one listener task runs at any time: a poll that starts a task
/// either finds none running or cancels the running one first, and a poll
/// that changes nothing starts and cancels nothing.
pub proof fn single_listener(s: Supervisor, seen: Option<VmId>)
    requires
        s.wf(),
    ensures
        s.poll_next(seen).0.wf(),
        s.poll_next(seen).1.start is Some ==> (s.running ==> s.poll_next(seen).1.cancel),
        s.poll_next(seen).1.cancel ==> s.running,
        seen == s.current ==> s.poll_next(seen).1 == (PollAction { cancel: false, start: None }),
        s.poll_next(seen).0.current == seen,
{
}

/// What to do after a failed attempt.
#[derive(Clone, Copy, Debug, PartialEq, Eq, Structural)]
pub enum RetryDecision {
    /// Try again.
    Retry,
    /// The budget is spent: give up.
    GiveUp,
}

/// A fixed budget of retries, spent one per failed attempt.
#[derive(Clone, Copy, Debug, PartialEq, Eq, Structural)]
pub struct RetryBudget {
    pub remaining: u32,
}

impl RetryBudget {
    /// A budget of `retries` retries: `retries + 1` attempts in all.
    pub fn new(retries: u32) -> (r: RetryBudget)
        ensures
            r.remaining == retries,
    {
        RetryBudget { remaining: retries }
    }

    /// The budget of a listener task: [`LISTEN_ATTEMPTS`] attempts, after
    /// which the whole process exits with a failure.
    pub fn listener() -> (r: RetryBudget)
        ensures
            r.remaining == LISTEN_ATTEMPTS - 1,
    {
        RetryBudget { remaining: LISTEN_ATTEMPTS - 1 }
    }

    /// The budget of the guest's first connection to the host.
    pub fn host_probe() -> (r: RetryBudget)
        ensures
            r.remaining == HOST_PROBE_RETRIES,
    {
        RetryBudget { remaining: HOST_PROBE_RETRIES }
    }

    /// An attempt failed: retry while the budget lasts.
    pub fn on_failure(&mut self) -> (r: RetryDecision)
        ensures
            old(self).remaining > 0 ==> r == RetryDecision::Retry && final(self).remaining
                == old(self).remaining - 1,
            old(self).remaining == 0 ==> r == RetryDecision::GiveUp && *final(self) == *old(self),
    {
        if self.remaining > 0 {
            self.remaining = self.remaining - 1;
            RetryDecision::Retry
        } else {
            RetryDecision::GiveUp
        }
    }
}

/// How an attempt to connect to the host ended.
#[derive(Clone, Copy, Debug, PartialEq, Eq, Structural)]
pub enum ConnectOutcome {
    Connected,
    /// The connection attempt timed out.
    TimedOut,
    /// Any other error.
    Failed,
}

/// What the guest does after an attempt to reach the host.
#[derive(Clone, Copy, Debug, PartialEq, Eq, Structural)]
pub enum ProbeDecision {
    /// The host is up: send the liveness probe on the new connection.
    SendProbe,
    /// Try to connect again.
    Retry,
    /// Report the error of this attempt.
    GiveUp,
}

/// Decides after one attempt to reach the host: only a timeout is retried,
/// within the budget; any other error is reported at once.
pub fn on_connect_outcome(budget: &mut RetryBudget, outcome: ConnectOutcome) -> (r: ProbeDecision)
    ensures
        outcome == ConnectOutcome::Connected ==> r == ProbeDecision::SendProbe && *final(budget)
            == *old(budget),
        outcome == ConnectOutcome::Failed ==> r == ProbeDecision::GiveUp && *final(budget)
            == *old(budget),
        outcome == ConnectOutcome::TimedOut && old(budget).remaining > 0 ==> r
            == ProbeDecision::Retry && final(budget).remaining == old(budget).remaining - 1,
        outcome == ConnectOutcome::TimedOut && old(budget).remaining == 0 ==> r
            == ProbeDecision::GiveUp && *final(budget) == *old(budget),
{
    match outcome {
        ConnectOutcome::Connected => ProbeDecision::SendProbe,
        ConnectOutcome::Failed => ProbeDecision::GiveUp,
        ConnectOutcome::TimedOut => match budget.on_failure() {
            RetryDecision::Retry => ProbeDecision::Retry,
            RetryDecision::GiveUp => ProbeDecision::GiveUp,
        },
    }
}

} // verus!
