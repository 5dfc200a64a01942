//! The shared "attempt, classify, refresh once, retry once" strategy used by
//! both protocol clients. Both IMAP authentication and SMTP submission
//! recover from an authentication rejection the same way: with OAuth
//! credentials they refresh the access token once and retry the operation
//! exactly once more; with password credentials every failure is terminal.
//! The bound — at most two attempts and at most one refresh per operation —
//! is enforced here, in one place.

use vstd::prelude::*;

use crate::config::AuthKind;

verus! {

/// How one attempt of the guarded operation ended.
#[derive(Debug, Clone, Copy, PartialEq, Eq, Structural)]
pub enum AttemptOutcome {
    /// The server accepted the operation.
    Accepted,
    /// The server rejected the operation for authentication reasons; the
    /// only outcome that can trigger a refresh.
    AuthRejected,
    /// The attempt failed for a reason other than authentication.
    OtherFailure,
}

/// The final verdict of a bounded-retry run.
#[derive(Debug, Clone, Copy, PartialEq, Eq, Structural)]
pub enum RetryVerdict {
    /// The operation went through; `refreshed` records whether a token
    /// refresh happened on the way.
    Succeeded { refreshed: bool },
    /// Authentication was rejected and no (further) refresh was permitted.
    AuthFailed,
    /// The refresh-token grant itself failed.
    RefreshFailed,
    /// The operation failed for a reason other than authentication.
    OtherFailed,
}

/// Where a bounded-retry run stands: which interaction the caller must
/// perform next, or the verdict it concluded with.
#[derive(Debug, Clone, Copy, PartialEq, Eq, Structural)]
pub enum RetryPhase {
    /// The caller must make the first attempt and report its outcome.
    FirstAttempt,
    /// The caller must run one refresh-token grant and report whether it
    /// succeeded.
    AwaitingRefresh,
    /// The caller must retry the operation once more and report its outcome.
    SecondAttempt,
    /// The run is over; no further attempt or refresh may be made.
    Concluded(RetryVerdict),
}

/// One bounded-retry run. `attempts` counts reported attempt outcomes and
/// `refreshes` counts refresh grants started; the well-formedness invariant
/// caps them at two and one respectively.
#[derive(Debug, Clone, Copy, PartialEq, Eq, Structural)]
pub struct RetryMachine {
    pub kind: AuthKind,
    pub phase: RetryPhase,
    pub attempts: u8,
    pub refreshes: u8,
}

impl RetryMachine {
    /// The machine's invariant: the phase determines how many attempts and
    /// refreshes have happened, and password runs never refresh.
    pub open spec fn wf(self) -> bool {
        match self.phase {
            RetryPhase::FirstAttempt => self.attempts == 0 && self.refreshes == 0,
            RetryPhase::AwaitingRefresh => self.kind is OAuth && self.attempts == 1
                && self.refreshes == 1,
            RetryPhase::SecondAttempt => self.kind is OAuth && self.attempts == 1
                && self.refreshes == 1,
            RetryPhase::Concluded(v) => {
                &&& self.attempts <= 2
                &&& self.refreshes <= 1
                &&& (self.kind is Password ==> self.refreshes == 0 && self.attempts <= 1)
                &&& (v matches RetryVerdict::Succeeded { refreshed }
                    ==> (refreshed <==> self.refreshes == 1))
                &&& (v is RefreshFailed ==> self.kind is OAuth && self.refreshes == 1)
            },
        }
    }

    /// The transition taken when an attempt outcome is reported.
    pub open spec fn spec_on_attempt(self, outcome: AttemptOutcome) -> RetryMachine
        recommends
            self.phase is FirstAttempt || self.phase is SecondAttempt,
    {
        let first = self.phase is FirstAttempt;
        let phase = match outcome {
            AttemptOutcome::Accepted => RetryPhase::Concluded(
                RetryVerdict::Succeeded { refreshed: !first },
            ),
            AttemptOutcome::AuthRejected => {
                if first && self.kind is OAuth {
                    RetryPhase::AwaitingRefresh
                } else {
                    RetryPhase::Concluded(RetryVerdict::AuthFailed)
                }
            },
            AttemptOutcome::OtherFailure => RetryPhase::Concluded(RetryVerdict::OtherFailed),
        };
        RetryMachine {
            phase,
            attempts: (self.attempts + 1) as u8,
            refreshes: if phase is AwaitingRefresh {
                (self.refreshes + 1) as u8
            } else {
                self.refreshes
            },
            ..self
        }
    }

    /// The transition taken when the refresh grant's result is reported.
    pub open spec fn spec_on_refresh(self, refresh_ok: bool) -> RetryMachine
        recommends
            self.phase is AwaitingRefresh,
    {
        RetryMachine {
            phase: if refresh_ok {
                RetryPhase::SecondAttempt
            } else {
                RetryPhase::Concluded(RetryVerdict::RefreshFailed)
            },
            ..self
        }
    }

    /// Starts a bounded-retry run: the caller's next step is the first
    /// attempt.
    pub fn new(kind: AuthKind) -> (m: RetryMachine)
        ensures
            m == (RetryMachine {
                kind,
                phase: RetryPhase::FirstAttempt,
                attempts: 0u8,
                refreshes: 0u8,
            }),
            m.wf(),
    {
        RetryMachine { kind, phase: RetryPhase::FirstAttempt, attempts: 0, refreshes: 0 }
    }

    /// Reports how an attempt went. A first authentication rejection moves
    /// an OAuth run to the refresh step; everything else concludes the run,
    /// except that a first acceptance or rejection of a password run
    /// concludes it immediately.
    pub fn on_attempt_result(&mut self, outcome: AttemptOutcome)
        requires
            old(self).wf(),
            old(self).phase is FirstAttempt || old(self).phase is SecondAttempt,
        ensures
            *final(self) == old(self).spec_on_attempt(outcome),
            final(self).wf(),
    {
        let first = matches!(self.phase, RetryPhase::FirstAttempt);
        self.attempts = self.attempts + 1;
        match outcome {
            AttemptOutcome::Accepted => {
                self.phase = RetryPhase::Concluded(RetryVerdict::Succeeded { refreshed: !first });
            }
            AttemptOutcome::AuthRejected => {
                if first && matches!(self.kind, AuthKind::OAuth) {
                    self.phase = RetryPhase::AwaitingRefresh;
                    self.refreshes = self.refreshes + 1;
                } else {
                    self.phase = RetryPhase::Concluded(RetryVerdict::AuthFailed);
                }
            }
            AttemptOutcome::OtherFailure => {
                self.phase = RetryPhase::Concluded(RetryVerdict::OtherFailed);
            }
        }
    }

    /// Reports how the refresh grant went: success earns exactly one more
    /// attempt, failure concludes the run.
    pub fn on_refresh_result(&mut self, refresh_ok: bool)
        requires
            old(self).wf(),
            old(self).phase is AwaitingRefresh,
        ensures
            *final(self) == old(self).spec_on_refresh(refresh_ok),
            final(self).wf(),
    {
        if refresh_ok {
            self.phase = RetryPhase::SecondAttempt;
        } else {
            self.phase = RetryPhase::Concluded(RetryVerdict::RefreshFailed);
        }
    }

    /// Whether the caller's next step is an attempt of the operation.
    pub fn needs_attempt(&self) -> (b: bool)
        ensures
            b <==> (self.phase is FirstAttempt || self.phase is SecondAttempt),
    {
        matches!(self.phase, RetryPhase::FirstAttempt | RetryPhase::SecondAttempt)
    }

    /// Whether the caller's next step is a refresh-token grant.
    pub fn needs_refresh(&self) -> (b: bool)
        ensures
            b <==> self.phase is AwaitingRefresh,
    {
        matches!(self.phase, RetryPhase::AwaitingRefresh)
    }

    /// The verdict, once the run has concluded.
    pub fn verdict(&self) -> (v: Option<RetryVerdict>)
        ensures
            match v {
                Some(verdict) => self.phase == RetryPhase::Concluded(verdict),
                None => !(self.phase is Concluded),
            },
    {
        match self.phase {
            RetryPhase::Concluded(v) => Some(v),
            _ => None,
        }
    }
}

/// No run ever makes more than two attempts or more than one refresh: the
/// bound holds in every reachable machine state.
pub proof fn lemma_retry_bounds(m: RetryMachine)
    requires
        m.wf(),
    ensures
        m.attempts <= 2,
        m.refreshes <= 1,
{
}

/// A password run never starts a refresh: a login failure with password
/// credentials is terminal with zero refresh attempts.
pub proof fn lemma_password_never_refreshes(m: RetryMachine)
    requires
        m.wf(),
        m.kind is Password,
    ensures
        m.refreshes == 0,
        m.attempts <= 1,
{
}

/// The password half of the authentication law: a run that starts with
/// password credentials and sees its first attempt rejected concludes with
/// an authentication failure after exactly one attempt and zero refreshes.
pub proof fn lemma_password_rejection_is_terminal(m: RetryMachine)
    requires
        m == (RetryMachine {
            kind: AuthKind::Password,
            phase: RetryPhase::FirstAttempt,
            attempts: 0u8,
            refreshes: 0u8,
        }),
    ensures
        m.spec_on_attempt(AttemptOutcome::AuthRejected).phase
            == RetryPhase::Concluded(RetryVerdict::AuthFailed),
        m.spec_on_attempt(AttemptOutcome::AuthRejected).attempts == 1,
        m.spec_on_attempt(AttemptOutcome::AuthRejected).refreshes == 0,
{
}

/// The OAuth half of the authentication law: a first rejection triggers
/// exactly one refresh and, if the refresh succeeds, exactly one retry;
/// whatever the retry reports, the run is over after two attempts, and a
/// second rejection concludes it with an authentication failure.
pub proof fn lemma_oauth_single_retry(second: AttemptOutcome)
    ensures
        ({
            let fresh = RetryMachine {
                kind: AuthKind::OAuth,
                phase: RetryPhase::FirstAttempt,
                attempts: 0u8,
                refreshes: 0u8,
            };
            let rejected = fresh.spec_on_attempt(AttemptOutcome::AuthRejected);
            &&& rejected.phase is AwaitingRefresh
            &&& rejected.refreshes == 1
            &&& rejected.spec_on_refresh(false).phase
                == RetryPhase::Concluded(RetryVerdict::RefreshFailed)
            &&& rejected.spec_on_refresh(true).phase is SecondAttempt
            &&& rejected.spec_on_refresh(true).spec_on_attempt(second).phase is Concluded
            &&& rejected.spec_on_refresh(true).spec_on_attempt(second).attempts == 2
            &&& rejected.spec_on_refresh(true).spec_on_attempt(second).refreshes == 1
            &&& (second is AuthRejected ==> rejected.spec_on_refresh(true).spec_on_attempt(
                second,
            ).phase == RetryPhase::Concluded(RetryVerdict::AuthFailed))
            &&& (second is Accepted ==> rejected.spec_on_refresh(true).spec_on_attempt(
                second,
            ).phase == RetryPhase::Concluded(RetryVerdict::Succeeded { refreshed: true }))
        }),
{
}

} // verus!
