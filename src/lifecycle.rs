//! The account lifecycle of one upload: allocate, write, finalize and, for a
//! program, hand its upgrade authority on. The decisions are a function from
//! state and event to the next state and the remote call to make.
use vstd::prelude::*;

verus! {

/// The kinds of upload that share the lifecycle.
#[derive(Clone, Copy, Debug, PartialEq, Eq, Structural)]
pub enum AccountKind {
    /// Executable code left in a buffer, whose write authority then moves
    /// on; it has no finalize call.
    Buffer,
    /// Executable code, promoted to a program on finalize, whose upgrade
    /// authority then moves on.
    Program,
    /// A proposal record, made immutable and votable on finalize.
    Proposal,
}

/// A phase that makes a remote call.
#[derive(Clone, Copy, Debug, PartialEq, Eq, Structural)]
pub enum Phase {
    Allocate,
    Write,
    Finalize,
    AuthorityTransfer,
}

/// Where an upload stands.
#[derive(Clone, Copy, Debug, PartialEq, Eq, Structural)]
pub enum Stage {
    /// Waiting for the outcome of this phase's remote call.
    Running(Phase),
    Done,
    Failed,
}

/// What the remote side answered to the current phase.
#[derive(Clone, Debug, PartialEq, Eq)]
pub enum Event {
    /// The phase's one remote call was confirmed (not for `Write`).
    Confirmed,
    /// The phase's call was rejected, with the remote reason.
    Rejected(String),
    /// The write phase's dispatch ended with `failed` of `total` units not
    /// landed.
    WritesReported { failed: usize, total: usize },
}

/// Why an upload stopped.
#[derive(Clone, Debug, PartialEq, Eq)]
pub enum UploadError {
    /// A remote call of this phase was rejected.
    Phase { phase: Phase, reason: String },
    /// `failed` of `total` write units did not land; the account is left
    /// written in part, and the write phase may be run again.
    PartialWrite { failed: usize, total: usize },
    /// An answer that does not fit this phase: a write report outside the
    /// write phase, or a plain confirmation of the write phase.
    UnexpectedEvent { phase: Phase },
}

/// What the driver of the upload is to do next.
#[derive(Clone, Debug, PartialEq, Eq)]
pub enum Action {
    /// Issue the remote call of this phase.
    Run(Phase),
    /// The upload is complete.
    Complete,
    /// The upload stops here with this error.
    Abort(UploadError),
    /// The upload has ended; nothing more to do.
    Idle,
}

/// One upload's state.
#[derive(Clone, Copy, Debug)]
pub struct Upload {
    pub kind: AccountKind,
    pub stage: Stage,
}

/// The phase after `phase`, if any, for an account of kind `kind`.
pub open spec fn next_phase(kind: AccountKind, phase: Phase) -> Option<Phase> {
    match phase {
        Phase::Allocate => Some(Phase::Write),
        Phase::Write => match kind {
            AccountKind::Buffer => Some(Phase::AuthorityTransfer),
            _ => Some(Phase::Finalize),
        },
        Phase::Finalize => match kind {
            AccountKind::Program => Some(Phase::AuthorityTransfer),
            _ => None,
        },
        Phase::AuthorityTransfer => None,
    }
}

/// `event` reports that a call of `phase` succeeded: a confirmation outside
/// the write phase, a report of no failed writes in it.
pub open spec fn succeeded(phase: Phase, event: Event) -> bool {
    match event {
        Event::Confirmed => phase != Phase::Write,
        Event::Rejected(_) => false,
        Event::WritesReported { failed, total } => phase == Phase::Write && failed == 0,
    }
}

/// The transition of an upload of kind `kind` at `stage` on `event`.
pub open spec fn transition(kind: AccountKind, stage: Stage, event: Event) -> (Stage, Action) {
    match stage {
        Stage::Running(phase) => match event {
            Event::Rejected(reason) => (
                Stage::Failed,
                Action::Abort(UploadError::Phase { phase, reason }),
            ),
            Event::WritesReported { failed, total } if phase == Phase::Write && failed > 0 => (
                Stage::Failed,
                Action::Abort(UploadError::PartialWrite { failed, total }),
            ),
            _ => if succeeded(phase, event) {
                match next_phase(kind, phase) {
                    Some(next) => (Stage::Running(next), Action::Run(next)),
                    None => (Stage::Done, Action::Complete),
                }
            } else {
                (Stage::Failed, Action::Abort(UploadError::UnexpectedEvent { phase }))
            },
        },
        _ => (stage, Action::Idle),
    }
}

impl Upload {
    /// Starts an upload: its first call allocates the account.
    pub fn start(kind: AccountKind) -> (r: (Upload, Action))
        ensures
            r.0 == (Upload { kind, stage: Stage::Running(Phase::Allocate) }),
            r.1 == Action::Run(Phase::Allocate),
    {
        (Upload { kind, stage: Stage::Running(Phase::Allocate) }, Action::Run(Phase::Allocate))
    }

    /// The next phase after `phase` for this upload's kind.
    pub fn next_phase(&self, phase: Phase) -> (r: Option<Phase>)
        ensures
            r == next_phase(self.kind, phase),
    {
        match phase {
            Phase::Allocate => Some(Phase::Write),
            Phase::Write => match self.kind {
                AccountKind::Buffer => Some(Phase::AuthorityTransfer),
                _ => Some(Phase::Finalize),
            },
            Phase::Finalize => match self.kind {
                AccountKind::Program => Some(Phase::AuthorityTransfer),
                _ => None,
            },
            Phase::AuthorityTransfer => None,
        }
    }

    /// Moves the upload on by the answer to its current call, and says what
    /// to do next.
    pub fn step(&self, event: Event) -> (r: (Upload, Action))
        ensures
            r.0.kind == self.kind,
            (r.0.stage, r.1) == transition(self.kind, self.stage, event),
    {
        match self.stage {
            Stage::Running(phase) => {
                let is_write = match phase {
                    Phase::Write => true,
                    _ => false,
                };
                match event {
                    Event::Rejected(reason) => (
                        Upload { kind: self.kind, stage: Stage::Failed },
                        Action::Abort(UploadError::Phase { phase, reason }),
                    ),
                    Event::WritesReported { failed, total } if is_write && failed > 0 => (
                        Upload { kind: self.kind, stage: Stage::Failed },
                        Action::Abort(UploadError::PartialWrite { failed, total }),
                    ),
                    _ => {
                        let ok = match event {
                            Event::Confirmed => !is_write,
                            Event::WritesReported { failed, total } => is_write && failed == 0,
                            Event::Rejected(_) => false,
                        };
                        if ok {
                            match self.next_phase(phase) {
                                Some(next) => (
                                    Upload { kind: self.kind, stage: Stage::Running(next) },
                                    Action::Run(next),
                                ),
                                None => (
                                    Upload { kind: self.kind, stage: Stage::Done },
                                    Action::Complete,
                                ),
                            }
                        } else {
                            (
                                Upload { kind: self.kind, stage: Stage::Failed },
                                Action::Abort(UploadError::UnexpectedEvent { phase }),
                            )
                        }
                    },
                }
            },
            _ => (*self, Action::Idle),
        }
    }
}

/// Finalize is only ever called right after a write phase in which every
/// unit landed: a report of failed writes halts the upload before it.
pub proof fn lemma_finalize_follows_clean_write(kind: AccountKind, stage: Stage, event: Event)
    requires
        transition(kind, stage, event).1 == Action::Run(Phase::Finalize),
    ensures
        stage == Stage::Running(Phase::Write),
        succeeded(stage->Running_0, event),
{
}

/// No phase runs before allocation has been confirmed: the write phase is
/// only entered from a confirmed allocation.
pub proof fn lemma_write_follows_allocate(kind: AccountKind, stage: Stage, event: Event)
    requires
        transition(kind, stage, event).1 == Action::Run(Phase::Write),
    ensures
        stage == Stage::Running(Phase::Allocate),
        succeeded(stage->Running_0, event),
{
}

/// A rejected call ends the upload with an error tagged by that call's
/// phase, and an ended upload issues no further call whatever comes.
pub proof fn lemma_rejection_is_final(kind: AccountKind, phase: Phase, reason: String, later: Event)
    ensures
        transition(kind, Stage::Running(phase), Event::Rejected(reason)) == (
            Stage::Failed,
            Action::Abort(UploadError::Phase { phase, reason }),
        ),
        transition(kind, Stage::Failed, later) == (Stage::Failed, Action::Idle),
{
}

} // verus!
