//! Preparing the storage location before the handle is attached to it.
//!
//! The durable store is one file in one directory below a directory that
//! the host offers. The directory and the file are created where they are
//! missing, and only there; then the store is opened. What to do next is
//! decided here, one step at a time; the steps themselves work on the file
//! system and belong to the shell, which performs each and reports its
//! outcome.

use vstd::prelude::*;
use crate::error::{CauseView, DbError, DbErrorView, ErrorKind, Operation, RecordKey, RecordKeyView};

verus! {

/// What the shell is asked to do.
#[derive(Debug, Clone, Copy, PartialEq, Eq, Structural)]
pub enum AttachStep {
    /// Find the directory that the host offers.
    ResolveDirectory,
    /// Tell whether the directory of the store exists.
    ProbeDirectory,
    /// Create the directory of the store.
    CreateDirectory,
    /// Tell whether the file of the store exists.
    ProbeFile,
    /// Create the file of the store, empty.
    CreateFile,
    /// Attach the handle to the file of the store: it is known to exist.
    Open,
}

/// What the shell reports of a step.
#[derive(Debug, Clone, PartialEq, Eq)]
pub enum StepOutcome {
    /// What was probed exists, or does not.
    Exists(bool),
    /// What was asked for is done.
    Done,
    /// What was asked for failed, with the message of the system.
    Failed(String),
}

/// An outcome as a mathematical value.
pub enum StepOutcomeView {
    Exists(bool),
    Done,
    Failed(Seq<char>),
}

impl View for StepOutcome {
    type V = StepOutcomeView;

    open spec fn view(&self) -> StepOutcomeView {
        match *self {
            StepOutcome::Exists(b) => StepOutcomeView::Exists(b),
            StepOutcome::Done => StepOutcomeView::Done,
            StepOutcome::Failed(s) => StepOutcomeView::Failed(s@),
        }
    }
}

/// Whether an outcome answers what a step asks for: a probe is answered by
/// what it found, anything else by its success or failure. Nothing answers
/// `Open`, which is the handle's own to do.
pub open spec fn answers(step: AttachStep, outcome: StepOutcomeView) -> bool {
    match step {
        AttachStep::ProbeDirectory | AttachStep::ProbeFile => outcome is Exists,
        AttachStep::ResolveDirectory | AttachStep::CreateDirectory | AttachStep::CreateFile =>
            outcome is Done || outcome is Failed,
        AttachStep::Open => false,
    }
}

/// The step that follows a step with the given outcome, or the operation
/// that failed. An outcome that does not answer the step changes nothing.
pub open spec fn next_step(step: AttachStep, outcome: StepOutcomeView) -> Result<
    AttachStep,
    Operation,
> {
    match (step, outcome) {
        (AttachStep::ResolveDirectory, StepOutcomeView::Done) => Ok(AttachStep::ProbeDirectory),
        (AttachStep::ResolveDirectory, StepOutcomeView::Failed(_)) => Err(
            Operation::ResolveDirectory,
        ),
        (AttachStep::ProbeDirectory, StepOutcomeView::Exists(true)) => Ok(AttachStep::ProbeFile),
        (AttachStep::ProbeDirectory, StepOutcomeView::Exists(false)) => Ok(
            AttachStep::CreateDirectory,
        ),
        (AttachStep::CreateDirectory, StepOutcomeView::Done) => Ok(AttachStep::ProbeFile),
        (AttachStep::CreateDirectory, StepOutcomeView::Failed(_)) => Err(
            Operation::CreateDirectory,
        ),
        (AttachStep::ProbeFile, StepOutcomeView::Exists(true)) => Ok(AttachStep::Open),
        (AttachStep::ProbeFile, StepOutcomeView::Exists(false)) => Ok(AttachStep::CreateFile),
        (AttachStep::CreateFile, StepOutcomeView::Done) => Ok(AttachStep::Open),
        (AttachStep::CreateFile, StepOutcomeView::Failed(_)) => Err(Operation::CreateFile),
        (_, _) => Ok(step),
    }
}

/// How far a step is on the way to the open store.
pub open spec fn step_rank(step: AttachStep) -> nat {
    match step {
        AttachStep::ResolveDirectory => 0,
        AttachStep::ProbeDirectory => 1,
        AttachStep::CreateDirectory => 2,
        AttachStep::ProbeFile => 3,
        AttachStep::CreateFile => 4,
        AttachStep::Open => 5,
    }
}

impl AttachStep {
    /// The step with which the preparation begins.
    pub fn first() -> (step: AttachStep)
        ensures
            step == AttachStep::ResolveDirectory,
    {
        AttachStep::ResolveDirectory
    }

    /// The step that follows this one with the given outcome. A failure
    /// ends the preparation: it is a lifecycle failure of the operation
    /// that the step stands for, with the message of the system as its
    /// cause.
    pub fn advance(self, outcome: StepOutcome) -> (r: Result<AttachStep, DbError>)
        ensures
            match next_step(self, outcome@) {
                Ok(next) => r is Ok && r->Ok_0 == next,
                Err(operation) => r is Err && r->Err_0@ == (DbErrorView {
                    kind: ErrorKind::Lifecycle,
                    operation,
                    key: RecordKeyView::Unkeyed,
                    cause: CauseView::Reported(outcome@->Failed_0),
                }),
            },
    {
        match self {
            AttachStep::ResolveDirectory => match outcome {
                StepOutcome::Done => Ok(AttachStep::ProbeDirectory),
                StepOutcome::Failed(text) => Err(
                    DbError::from_store(Operation::ResolveDirectory, RecordKey::Unkeyed, false, text),
                ),
                StepOutcome::Exists(_) => Ok(self),
            },
            AttachStep::ProbeDirectory => match outcome {
                StepOutcome::Exists(true) => Ok(AttachStep::ProbeFile),
                StepOutcome::Exists(false) => Ok(AttachStep::CreateDirectory),
                _ => Ok(self),
            },
            AttachStep::CreateDirectory => match outcome {
                StepOutcome::Done => Ok(AttachStep::ProbeFile),
                StepOutcome::Failed(text) => Err(
                    DbError::from_store(Operation::CreateDirectory, RecordKey::Unkeyed, false, text),
                ),
                StepOutcome::Exists(_) => Ok(self),
            },
            AttachStep::ProbeFile => match outcome {
                StepOutcome::Exists(true) => Ok(AttachStep::Open),
                StepOutcome::Exists(false) => Ok(AttachStep::CreateFile),
                _ => Ok(self),
            },
            AttachStep::CreateFile => match outcome {
                StepOutcome::Done => Ok(AttachStep::Open),
                StepOutcome::Failed(text) => Err(
                    DbError::from_store(Operation::CreateFile, RecordKey::Unkeyed, false, text),
                ),
                StepOutcome::Exists(_) => Ok(self),
            },
            AttachStep::Open => Ok(self),
        }
    }
}

/// The preparation never goes back, and every outcome that answers a step
/// either ends the preparation or brings it nearer to the open store: after
/// at most five answers the store can be opened.
pub proof fn lemma_steps_make_progress(step: AttachStep, outcome: StepOutcomeView)
    ensures
        next_step(step, outcome) matches Ok(next) ==> step_rank(next) >= step_rank(step),
        answers(step, outcome) ==> match next_step(step, outcome) {
            Ok(next) => step_rank(next) > step_rank(step),
            Err(_) => outcome is Failed,
        },
        !answers(step, outcome) ==> next_step(step, outcome) == Ok::<AttachStep, Operation>(step),
{
}

/// Nothing is created that exists: the creation of the directory, and that
/// of the file, is asked for only after a probe has found it missing.
pub proof fn lemma_creates_only_what_is_missing(step: AttachStep, outcome: StepOutcomeView)
    ensures
        next_step(step, outcome) == Ok::<AttachStep, Operation>(AttachStep::CreateDirectory)
            && step != AttachStep::CreateDirectory ==> step == AttachStep::ProbeDirectory
            && outcome == StepOutcomeView::Exists(false),
        next_step(step, outcome) == Ok::<AttachStep, Operation>(AttachStep::CreateFile) && step
            != AttachStep::CreateFile ==> step == AttachStep::ProbeFile && outcome
            == StepOutcomeView::Exists(false),
{
}

/// The store is opened only where its file is known to exist, found by a
/// probe or just created; and its file is looked for only where its
/// directory is known to exist in the same way.
pub proof fn lemma_opens_only_what_exists(step: AttachStep, outcome: StepOutcomeView)
    ensures
        next_step(step, outcome) == Ok::<AttachStep, Operation>(AttachStep::Open) && step
            != AttachStep::Open ==> {
            ||| step == AttachStep::ProbeFile && outcome == StepOutcomeView::Exists(true)
            ||| step == AttachStep::CreateFile && outcome == StepOutcomeView::Done
        },
        next_step(step, outcome) == Ok::<AttachStep, Operation>(AttachStep::ProbeFile) && step
            != AttachStep::ProbeFile ==> {
            ||| step == AttachStep::ProbeDirectory && outcome == StepOutcomeView::Exists(true)
            ||| step == AttachStep::CreateDirectory && outcome == StepOutcomeView::Done
        },
{
}

} // verus!
