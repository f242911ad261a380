//! The stages of a resumable archive job: the archive stack opens one
//! archive per turn, and only a completely mounted stack is handed to the
//! domain's own preparation steps. Errors end the job without retries.

use vstd::prelude::*;

verus! {

/// Where an archive job stands.
#[derive(Clone, Copy, Debug, PartialEq, Eq, Structural)]
pub enum ArchiveStage {
    Unopened,
    Mounting,
    Ready,
    /// The job completed or failed; it cannot resume.
    Finished,
}

/// What happened in this turn of the job.
#[derive(Clone, Copy, Debug, PartialEq, Eq, Structural)]
pub enum ArchiveTurn {
    /// Beginning the mount succeeded or failed.
    Begun { ok: bool },
    /// Mounting opened one more archive (`done` when the stack is complete),
    /// or failed.
    Advanced { ok: bool, done: bool },
    /// The domain step continued, waits on a dependency, or completed.
    DomainContinued,
    DomainWaits,
    DomainCompleted,
}

/// What the scheduler hears after a turn.
#[derive(Clone, Copy, Debug, PartialEq, Eq, Structural)]
pub enum TaskStep {
    Continue,
    Wait,
    Complete,
}

/// The turn that the stage expects next.
pub open spec fn turn_fits(stage: ArchiveStage, turn: ArchiveTurn) -> bool {
    match stage {
        ArchiveStage::Unopened => turn is Begun,
        ArchiveStage::Mounting => turn is Advanced,
        ArchiveStage::Ready => turn is DomainContinued || turn is DomainWaits || turn is DomainCompleted,
        ArchiveStage::Finished => false,
    }
}

/// The next stage and the scheduler step of one turn.
pub open spec fn spec_archive_step(stage: ArchiveStage, turn: ArchiveTurn) -> (ArchiveStage, TaskStep) {
    match turn {
        ArchiveTurn::Begun { ok } => if ok {
            (ArchiveStage::Mounting, TaskStep::Continue)
        } else {
            (ArchiveStage::Finished, TaskStep::Complete)
        },
        ArchiveTurn::Advanced { ok, done } => if !ok {
            (ArchiveStage::Finished, TaskStep::Complete)
        } else if done {
            (ArchiveStage::Ready, TaskStep::Continue)
        } else {
            (ArchiveStage::Mounting, TaskStep::Continue)
        },
        ArchiveTurn::DomainContinued => (ArchiveStage::Ready, TaskStep::Continue),
        ArchiveTurn::DomainWaits => (ArchiveStage::Ready, TaskStep::Wait),
        ArchiveTurn::DomainCompleted => (ArchiveStage::Finished, TaskStep::Complete),
    }
}

pub fn archive_step(stage: ArchiveStage, turn: ArchiveTurn) -> (next: (ArchiveStage, TaskStep))
    requires
        turn_fits(stage, turn),
    ensures
        next == spec_archive_step(stage, turn),
{
    match turn {
        ArchiveTurn::Begun { ok } => if ok {
            (ArchiveStage::Mounting, TaskStep::Continue)
        } else {
            (ArchiveStage::Finished, TaskStep::Complete)
        },
        ArchiveTurn::Advanced { ok, done } => if !ok {
            (ArchiveStage::Finished, TaskStep::Complete)
        } else if done {
            (ArchiveStage::Ready, TaskStep::Continue)
        } else {
            (ArchiveStage::Mounting, TaskStep::Continue)
        },
        ArchiveTurn::DomainContinued => (ArchiveStage::Ready, TaskStep::Continue),
        ArchiveTurn::DomainWaits => (ArchiveStage::Ready, TaskStep::Wait),
        ArchiveTurn::DomainCompleted => (ArchiveStage::Finished, TaskStep::Complete),
    }
}

/// The domain only ever sees a complete stack: no turn reaches `Ready`
/// except the one that finished mounting, and a finished job yields only
/// `Complete`.
pub proof fn law_domain_sees_complete_stack(stage: ArchiveStage, turn: ArchiveTurn)
    requires
        turn_fits(stage, turn),
    ensures
        spec_archive_step(stage, turn).0 == ArchiveStage::Ready && stage != ArchiveStage::Ready
            ==> turn == (ArchiveTurn::Advanced { ok: true, done: true }),
        spec_archive_step(stage, turn).0 == ArchiveStage::Finished ==> spec_archive_step(
            stage,
            turn,
        ).1 == TaskStep::Complete,
        spec_archive_step(stage, turn).1 == TaskStep::Wait ==> stage == ArchiveStage::Ready,
{
}

} // verus!
