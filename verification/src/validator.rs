use crate::errors::ScrapeError;
use vstd::prelude::*;

verus! {

/// How one login round-trip ended, as the validator sees it.
pub enum LoginOutcome {
    /// The portal accepted the credentials.
    Success,
    /// The portal rejected the credentials: the one recoverable failure.
    AuthenticationFailed,
    /// Any other failure: not a credential problem, surfaced verbatim.
    Other(ScrapeError),
}

/// What the caller must do with the credential store after a step.
#[derive(Debug, Clone, Copy, PartialEq, Eq, Structural)]
pub enum StoreAction {
    /// Store the candidate password for the account.
    Persist,
    /// Delete the password persisted for the failed candidate.
    Rollback,
}

/// The validator's observable phase.
#[derive(Debug, Clone, Copy, PartialEq, Eq, Structural)]
pub enum Phase {
    /// Waiting for the first candidate password.
    AwaitingInput,
    /// A candidate is persisted and its login round-trip is under way.
    Validating,
    /// A candidate was accepted; it stays persisted.
    Valid,
    /// The candidate was rejected; the caller may prompt again.
    Invalid,
    /// No further input is accepted.
    Fatal,
}

/// A submitted candidate moves the validator to `Validating` and consumes
/// nothing of the attempt budget by itself.
pub open spec fn submitted_step(pre: PasswordValidator, post: PasswordValidator) -> bool {
    post.spec_phase() == Phase::Validating && post.spec_attempts() == pre.spec_attempts()
}

/// A rejected candidate counts one attempt; the third consecutive rejection
/// is fatal, any earlier one invites another prompt.
pub open spec fn rejected_step(pre: PasswordValidator, post: PasswordValidator) -> bool {
    post.spec_attempts() == pre.spec_attempts() + 1 && post.spec_phase() == (if pre.spec_attempts()
        + 1 >= 3 {
        Phase::Fatal
    } else {
        Phase::Invalid
    })
}

/// The interactive credential-validation state machine.
///
/// The caller prompts for a candidate, calls [`submit`](Self::submit),
/// persists the password and runs the login handshake, then reports the
/// outcome to [`on_login_outcome`](Self::on_login_outcome).  Rejections are
/// counted; the third consecutive one is fatal.  Every other failure is
/// fatal at once and consumes no attempt.
#[derive(Clone)]
pub struct PasswordValidator {
    phase: Phase,
    attempts: u8,
}

impl PasswordValidator {
    pub closed spec fn spec_phase(&self) -> Phase {
        self.phase
    }

    /// Consecutive rejected attempts so far.
    pub closed spec fn spec_attempts(&self) -> nat {
        self.attempts as nat
    }

    /// The validator awaits a (further) candidate password.
    pub open spec fn can_accept_input(&self) -> bool {
        self.spec_phase() == Phase::AwaitingInput || self.spec_phase() == Phase::Invalid
    }

    /// The attempt count stays within the hard cap of three.
    pub closed spec fn wf(&self) -> bool {
        &&& self.attempts <= 3
        &&& (self.phase == Phase::AwaitingInput ==> self.attempts == 0)
        &&& (self.phase == Phase::Invalid ==> 1 <= self.attempts <= 2)
        &&& (self.phase == Phase::Validating ==> self.attempts <= 2)
    }

    /// A fresh validator, awaiting the first candidate.
    pub fn new() -> (r: PasswordValidator)
        ensures
            r.spec_phase() == Phase::AwaitingInput,
            r.spec_attempts() == 0,
            r.wf(),
    {
        PasswordValidator { phase: Phase::AwaitingInput, attempts: 0 }
    }

    /// The validator's observable phase.
    pub fn phase(&self) -> (r: Phase)
        ensures
            r == self.spec_phase(),
    {
        self.phase
    }

    /// Consecutive rejected attempts so far.
    pub fn attempts(&self) -> (r: u8)
        ensures
            r as nat == self.spec_attempts(),
    {
        self.attempts
    }

    /// A candidate password was entered: the caller must persist it, then
    /// attempt the login handshake.
    pub fn submit(self) -> (r: (PasswordValidator, StoreAction))
        requires
            self.can_accept_input(),
            self.wf(),
        ensures
            submitted_step(self, r.0),
            r.1 == StoreAction::Persist,
            r.0.wf(),
    {
        (PasswordValidator { phase: Phase::Validating, attempts: self.attempts }, StoreAction::Persist)
    }

    /// The login round-trip for the persisted candidate ended.
    ///
    /// Success keeps the password persisted.  A rejection rolls it back and
    /// counts an attempt: the third consecutive rejection is fatal, an
    /// earlier one invites another prompt.  Any other failure rolls the
    /// password back and is fatal at once, without counting an attempt.
    pub fn on_login_outcome(self, outcome: &LoginOutcome) -> (r: (
        PasswordValidator,
        Option<StoreAction>,
    ))
        requires
            self.spec_phase() == Phase::Validating,
            self.wf(),
        ensures
            r.0.wf(),
            match outcome {
                LoginOutcome::Success => r.0.spec_phase() == Phase::Valid && r.0.spec_attempts()
                    == self.spec_attempts() && r.1 is None,
                LoginOutcome::AuthenticationFailed => rejected_step(self, r.0) && r.1 == Some(
                    StoreAction::Rollback,
                ),
                LoginOutcome::Other(_) => r.0.spec_phase() == Phase::Fatal && r.0.spec_attempts()
                    == self.spec_attempts() && r.1 == Some(StoreAction::Rollback),
            },
    {
        match outcome {
            LoginOutcome::Success => {
                (PasswordValidator { phase: Phase::Valid, attempts: self.attempts }, None)
            },
            LoginOutcome::AuthenticationFailed => {
                let attempts = self.attempts + 1;
                let phase = if attempts >= 3 {
                    Phase::Fatal
                } else {
                    Phase::Invalid
                };
                (PasswordValidator { phase, attempts }, Some(StoreAction::Rollback))
            },
            LoginOutcome::Other(_) => {
                (
                    PasswordValidator { phase: Phase::Fatal, attempts: self.attempts },
                    Some(StoreAction::Rollback),
                )
            },
        }
    }
}

/// Three consecutive rejections from a fresh validator end fatally, while
/// the first two each leave it ready to accept a further prompt.
pub proof fn lemma_third_rejection_fatal(
    v0: PasswordValidator,
    s0: PasswordValidator,
    v1: PasswordValidator,
    s1: PasswordValidator,
    v2: PasswordValidator,
    s2: PasswordValidator,
    v3: PasswordValidator,
)
    requires
        v0.spec_phase() == Phase::AwaitingInput,
        v0.spec_attempts() == 0,
        submitted_step(v0, s0),
        rejected_step(s0, v1),
        submitted_step(v1, s1),
        rejected_step(s1, v2),
        submitted_step(v2, s2),
        rejected_step(s2, v3),
    ensures
        v1.spec_phase() == Phase::Invalid,
        v1.can_accept_input(),
        v2.spec_phase() == Phase::Invalid,
        v2.can_accept_input(),
        v3.spec_phase() == Phase::Fatal,
        !v3.can_accept_input(),
{
}

} // verus!
