//! The sequencing of one run: fetch, transaction, export, then — on every
//! path, success or failure — removal of the downloaded archive.
//!
//! The coordinator is a state machine. The surrounding binary asks it for
//! the next action, performs that action's outside work, and reports the
//! result back; every decision — which step is next, when the run aborts,
//! which failure is reported — is made and proved here.

use vstd::prelude::*;
use crate::errors::InstallError;

verus! {

/// The phase a run is in. A run starts at `Fetch`; `Cleanup` removes the
/// downloaded archive; `Finished` is terminal.
#[derive(Clone, Copy, Debug, PartialEq, Eq, Structural)]
pub enum RunPhase {
    /// The archive is being fetched.
    Fetch,
    /// The install transaction is running.
    Transact,
    /// The shell profile is being edited.
    Export,
    /// The downloaded archive is being removed.
    Cleanup,
    /// The run is over.
    Finished,
}

/// The outside work the binary performs for each phase.
#[derive(Clone, Copy, Debug, PartialEq, Eq, Structural)]
pub enum RunAction {
    /// Download the archive to local storage.
    FetchArchive,
    /// Run the install transaction against the filesystem.
    RunTransaction,
    /// Apply the profile edit.
    ExportPath,
    /// Delete the downloaded archive file.
    RemoveArchive,
    /// Nothing is left to do.
    Finish,
}

/// The action a phase asks for.
pub open spec fn spec_action_for(phase: RunPhase) -> RunAction {
    match phase {
        RunPhase::Fetch => RunAction::FetchArchive,
        RunPhase::Transact => RunAction::RunTransaction,
        RunPhase::Export => RunAction::ExportPath,
        RunPhase::Cleanup => RunAction::RemoveArchive,
        RunPhase::Finished => RunAction::Finish,
    }
}

/// The phase that follows a step's outcome. A failed step — and the export
/// step in any case — leads to `Cleanup`, never straight to `Finished`:
/// the archive removal runs on every path through a run.
pub open spec fn spec_next_phase(phase: RunPhase, step_ok: bool) -> RunPhase {
    match phase {
        RunPhase::Fetch => if step_ok {
            RunPhase::Transact
        } else {
            RunPhase::Cleanup
        },
        RunPhase::Transact => if step_ok {
            RunPhase::Export
        } else {
            RunPhase::Cleanup
        },
        RunPhase::Export => RunPhase::Cleanup,
        RunPhase::Cleanup => RunPhase::Finished,
        RunPhase::Finished => RunPhase::Finished,
    }
}

/// The recorded failure after a step: the first failure of a run is kept
/// unchanged forever, and a failure of the cleanup step itself is never
/// recorded — it must not change the run's reported outcome.
pub open spec fn spec_next_failure(
    failure: Option<InstallError>,
    phase: RunPhase,
    result: Result<(), InstallError>,
) -> Option<InstallError> {
    if failure is Some || phase is Cleanup {
        failure
    } else {
        match result {
            Ok(_) => None,
            Err(e) => Some(e),
        }
    }
}

/// The state of one run: its phase, and the first failure seen, if any.
pub struct RunCoordinator {
    /// The phase the run is in.
    pub phase: RunPhase,
    /// The first failure of the run, if one has happened.
    pub failure: Option<InstallError>,
}

impl RunCoordinator {
    /// A fresh run: about to fetch, with no failure.
    pub fn new() -> (r: RunCoordinator)
        ensures
            r.phase == RunPhase::Fetch,
            r.failure is None,
    {
        RunCoordinator { phase: RunPhase::Fetch, failure: None }
    }

    /// The outside work to perform next.
    pub fn next_action(&self) -> (a: RunAction)
        ensures
            a == spec_action_for(self.phase),
    {
        match self.phase {
            RunPhase::Fetch => RunAction::FetchArchive,
            RunPhase::Transact => RunAction::RunTransaction,
            RunPhase::Export => RunAction::ExportPath,
            RunPhase::Cleanup => RunAction::RemoveArchive,
            RunPhase::Finished => RunAction::Finish,
        }
    }

    /// Records the result of the action just performed and moves to the next
    /// phase. A failure aborts the remaining steps — the run falls through
    /// to cleanup — and the first failure is what the run reports; a cleanup
    /// failure changes nothing of the reported outcome.
    pub fn record_step(&mut self, result: Result<(), InstallError>)
        ensures
            final(self).phase == spec_next_phase(old(self).phase, result is Ok),
            final(self).failure == spec_next_failure(old(self).failure, old(self).phase, result),
    {
        let step_ok = result.is_ok();
        if self.failure.is_none() && !matches!(self.phase, RunPhase::Cleanup) {
            if let Err(e) = result {
                self.failure = Some(e);
            }
        }
        self.phase = match self.phase {
            RunPhase::Fetch => if step_ok {
                RunPhase::Transact
            } else {
                RunPhase::Cleanup
            },
            RunPhase::Transact => if step_ok {
                RunPhase::Export
            } else {
                RunPhase::Cleanup
            },
            RunPhase::Export => RunPhase::Cleanup,
            RunPhase::Cleanup => RunPhase::Finished,
            RunPhase::Finished => RunPhase::Finished,
        };
    }

    /// Whether the finished run succeeded: no step before cleanup failed.
    pub fn succeeded(&self) -> (b: bool)
        ensures
            b == (self.failure is None),
    {
        self.failure.is_none()
    }
}

/// How many steps a phase is from cleanup.
pub open spec fn spec_steps_to_cleanup(phase: RunPhase) -> nat {
    match phase {
        RunPhase::Fetch => 3,
        RunPhase::Transact => 2,
        RunPhase::Export => 1,
        RunPhase::Cleanup => 0,
        RunPhase::Finished => 0,
    }
}

/// Cleanup guarantee, first half: a run can only finish out of the cleanup
/// phase — whatever succeeded or failed before, the archive removal is
/// attempted before the run is over.
pub proof fn lemma_finish_only_after_cleanup(phase: RunPhase, step_ok: bool)
    ensures
        spec_next_phase(phase, step_ok) is Finished ==> (phase is Cleanup || phase is Finished),
{
}

/// Cleanup guarantee, second half: from every live phase, each step brings
/// the run strictly closer to cleanup, whether it succeeds or fails — so
/// cleanup is reached on every path, after at most three steps.
pub proof fn lemma_every_path_reaches_cleanup(phase: RunPhase, step_ok: bool)
    ensures
        !(phase is Cleanup) && !(phase is Finished) ==> spec_steps_to_cleanup(
            spec_next_phase(phase, step_ok),
        ) < spec_steps_to_cleanup(phase),
{
}

/// A cleanup failure never masks an earlier outcome: recording the cleanup
/// step's result, whatever it is, leaves the reported failure unchanged.
pub proof fn lemma_cleanup_never_changes_outcome(
    failure: Option<InstallError>,
    result: Result<(), InstallError>,
)
    ensures
        spec_next_failure(failure, RunPhase::Cleanup, result) == failure,
{
}

/// The first failure of a run is the one reported: once a failure is
/// recorded, no later step changes it.
pub proof fn lemma_first_failure_is_kept(
    failure: Option<InstallError>,
    phase: RunPhase,
    result: Result<(), InstallError>,
)
    ensures
        failure is Some ==> spec_next_failure(failure, phase, result) == failure,
{
}

} // verus!
