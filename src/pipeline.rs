//! The stage executor: the fixed order of stages, the skip / run / block
//! decision for each, and the record of their results. The caller performs
//! the stages it is told to run.
use vstd::prelude::*;
use crate::outcome::{ErrorKind, ExecutionResult, Failure, ProcessOutcome, failure};

verus! {

/// One unit of provisioning work.
#[derive(Clone, Copy, Debug, PartialEq, Eq, Structural)]
pub enum StageKind {
    Interpreter,
    Bundle,
    Repository,
    Model,
    Launch,
}

pub const STAGE_COUNT: usize = 5;

/// The stages in dependency order.
pub open spec fn stage_order() -> Seq<StageKind> {
    seq![
        StageKind::Interpreter,
        StageKind::Bundle,
        StageKind::Repository,
        StageKind::Model,
        StageKind::Launch,
    ]
}

/// The `i`-th stage of the order.
pub fn stage_at(i: usize) -> (r: StageKind)
    requires
        i < STAGE_COUNT,
    ensures
        r == stage_order()[i as int],
{
    if i == 0 {
        StageKind::Interpreter
    } else if i == 1 {
        StageKind::Bundle
    } else if i == 2 {
        StageKind::Repository
    } else if i == 3 {
        StageKind::Model
    } else {
        StageKind::Launch
    }
}

/// Stages that sync dependencies through the interpreter's tools.
pub open spec fn needs_interpreter(k: StageKind) -> bool {
    k == StageKind::Repository || k == StageKind::Model
}

/// What the executor does with a stage.
#[derive(Clone, Copy, Debug, PartialEq, Eq, Structural)]
pub enum StageDecision {
    /// The goal already holds: perform nothing.
    Skip,
    /// Perform the stage.
    Run,
    /// A hard dependency failed: report failure without running.
    Blocked,
}

pub open spec fn decision(k: StageKind, goal_holds: bool, interpreter_ready: bool) -> StageDecision {
    if goal_holds {
        StageDecision::Skip
    } else if needs_interpreter(k) && !interpreter_ready {
        StageDecision::Blocked
    } else {
        StageDecision::Run
    }
}

/// Skips a stage whose goal holds; blocks a stage that needs the
/// interpreter when it is not ready; runs the others.
pub fn decide(k: StageKind, goal_holds: bool, interpreter_ready: bool) -> (r: StageDecision)
    ensures
        r == decision(k, goal_holds, interpreter_ready),
{
    if goal_holds {
        StageDecision::Skip
    } else if (k == StageKind::Repository || k == StageKind::Model) && !interpreter_ready {
        StageDecision::Blocked
    } else {
        StageDecision::Run
    }
}

pub const INTERPRETER_MISSING: &'static str = "interpreter stage did not succeed";

/// `res` is the result recorded for stage `k`, given whether the interpreter
/// is ready, the probe's status text when the goal holds, and the outcome of
/// performing the stage when it ran.
pub open spec fn settles(
    k: StageKind,
    interpreter_ready: bool,
    goal: Option<String>,
    outcome: Option<ExecutionResult>,
    res: ExecutionResult,
) -> bool {
    match decision(k, goal is Some, interpreter_ready) {
        StageDecision::Skip => res == ExecutionResult::Skipped(goal->Some_0),
        StageDecision::Blocked => res matches ExecutionResult::Failed(f) && f.kind
            == ErrorKind::NotFound && f.detail@ == INTERPRETER_MISSING@,
        StageDecision::Run => outcome == Some(res),
    }
}

/// The interpreter is ready once its stage was skipped or succeeded.
pub open spec fn ready_after(results: Seq<ExecutionResult>) -> bool {
    results.len() > 0 && (results[0] is Skipped || results[0] is Succeeded)
}

/// The results of one pipeline run so far, one per stage in order.
pub struct PipelineRun {
    results: Vec<ExecutionResult>,
    interpreter_ready: bool,
}

impl PipelineRun {
    pub closed spec fn results_spec(&self) -> Seq<ExecutionResult> {
        self.results@
    }

    pub closed spec fn wf(&self) -> bool {
        self.results.len() <= STAGE_COUNT && self.interpreter_ready == ready_after(self.results@)
    }

    pub fn new() -> (r: PipelineRun)
        ensures
            r.wf(),
            r.results_spec() == Seq::<ExecutionResult>::empty(),
    {
        PipelineRun { results: Vec::new(), interpreter_ready: false }
    }

    pub fn is_done(&self) -> (r: bool)
        requires
            self.wf(),
        ensures
            r == (self.results_spec().len() == STAGE_COUNT),
    {
        self.results.len() == STAGE_COUNT
    }

    /// The stage whose result comes next, if any.
    pub fn next_stage(&self) -> (r: Option<StageKind>)
        requires
            self.wf(),
        ensures
            self.results_spec().len() < STAGE_COUNT ==> r == Some(
                stage_order()[self.results_spec().len() as int],
            ),
            self.results_spec().len() == STAGE_COUNT ==> r is None,
    {
        if self.results.len() < STAGE_COUNT {
            Some(stage_at(self.results.len()))
        } else {
            None
        }
    }

    /// The decision for the next stage, given whether its goal holds.
    pub fn next_decision(&self, goal_holds: bool) -> (r: StageDecision)
        requires
            self.wf(),
            self.results_spec().len() < STAGE_COUNT,
        ensures
            r == decision(
                stage_order()[self.results_spec().len() as int],
                goal_holds,
                ready_after(self.results_spec()),
            ),
    {
        decide(stage_at(self.results.len()), goal_holds, self.interpreter_ready)
    }

    /// Records the next stage's result: `goal` is the probe's status when
    /// the goal holds, `outcome` what performing the stage gave, required
    /// when it ran.
    pub fn record(&mut self, goal: Option<String>, outcome: Option<ExecutionResult>)
        requires
            old(self).wf(),
            old(self).results_spec().len() < STAGE_COUNT,
            decision(
                stage_order()[old(self).results_spec().len() as int],
                goal is Some,
                ready_after(old(self).results_spec()),
            ) == StageDecision::Run ==> outcome is Some,
        ensures
            final(self).wf(),
            final(self).results_spec().len() == old(self).results_spec().len() + 1,
            final(self).results_spec().take(old(self).results_spec().len() as int)
                == old(self).results_spec(),
            settles(
                stage_order()[old(self).results_spec().len() as int],
                ready_after(old(self).results_spec()),
                goal,
                outcome,
                final(self).results_spec().last(),
            ),
    {
        let k = stage_at(self.results.len());
        let d = decide(k, goal.is_some(), self.interpreter_ready);
        let res = match d {
            StageDecision::Skip => ExecutionResult::Skipped(goal.unwrap()),
            StageDecision::Blocked => ExecutionResult::Failed(
                failure(ErrorKind::NotFound, INTERPRETER_MISSING),
            ),
            StageDecision::Run => outcome.unwrap(),
        };
        let ghost before = self.results@;
        if self.results.len() == 0 {
            self.interpreter_ready = match &res {
                ExecutionResult::Skipped(_) => true,
                ExecutionResult::Succeeded { .. } => true,
                ExecutionResult::Failed(_) => false,
            };
        }
        self.results.push(res);
        assert(self.results@.take(before.len() as int) =~= before);
    }

    pub fn results(&self) -> (r: &Vec<ExecutionResult>)
        ensures
            r@ == self.results_spec(),
    {
        &self.results
    }
}

/// A stage whose goal already holds is skipped: nothing is performed, and
/// the result recorded is `Skipped` with the probe's status, whatever
/// performing it would have given.
pub proof fn lemma_satisfied_stage_skips(
    k: StageKind,
    interpreter_ready: bool,
    status: String,
    outcome: Option<ExecutionResult>,
    res: ExecutionResult,
)
    requires
        settles(k, interpreter_ready, Some(status), outcome, res),
    ensures
        decision(k, true, interpreter_ready) == StageDecision::Skip,
        res == ExecutionResult::Skipped(status),
{
}

/// The phases of the repository stage, in order.
#[derive(Clone, Copy, Debug, PartialEq, Eq, Structural)]
pub enum RepoPhase {
    /// Check that the version-control tool starts.
    CheckTool,
    /// Run the clone chain (full clone, then one without large files).
    Clone,
    /// Fetch large files, best effort.
    LargeFiles,
    /// Make the dependency tool available (its own chain).
    Toolchain,
    /// Sync the dependencies.
    Sync,
}

/// What the caller reports when a phase is over.
#[derive(Clone, Debug, PartialEq, Eq)]
pub enum PhaseReport {
    ToolStarted(bool),
    CloneDone(ExecutionResult),
    LargeFilesDone,
    ToolchainDone(ExecutionResult),
    SyncDone(ProcessOutcome),
}

/// The next step of the repository stage.
#[derive(Clone, Debug, PartialEq, Eq)]
pub enum RepoStep {
    /// Perform `phase`; `partial` carries whether large files were skipped.
    Continue { phase: RepoPhase, partial: bool },
    Finish(ExecutionResult),
}

pub open spec fn report_fits(phase: RepoPhase, report: PhaseReport) -> bool {
    match phase {
        RepoPhase::CheckTool => report is ToolStarted,
        RepoPhase::Clone => report is CloneDone,
        RepoPhase::LargeFiles => report is LargeFilesDone,
        RepoPhase::Toolchain => report is ToolchainDone,
        RepoPhase::Sync => report is SyncDone,
    }
}

pub const TOOL_MISSING: &'static str = "version-control tool is not installed";

pub const REPOSITORY_READY: &'static str = "repository cloned and dependencies synced";

/// The step after `phase` ended with `report`: a missing tool, a failed
/// clone chain, toolchain chain or sync ends the stage with that failure;
/// the large-file phase never does; a successful sync ends it with success,
/// partial when the clone skipped large files.
pub fn repo_next(phase: RepoPhase, partial: bool, report: PhaseReport) -> (r: RepoStep)
    requires
        report_fits(phase, report),
    ensures
        match report {
            PhaseReport::ToolStarted(false) => (r matches RepoStep::Finish(
                ExecutionResult::Failed(f),
            ) && f.kind == ErrorKind::ProcessLaunch && f.detail@ == TOOL_MISSING@),
            PhaseReport::ToolStarted(true) => r == (RepoStep::Continue {
                phase: RepoPhase::Clone,
                partial,
            }),
            PhaseReport::CloneDone(ExecutionResult::Failed(f)) => r == RepoStep::Finish(
                ExecutionResult::Failed(f),
            ),
            PhaseReport::CloneDone(ExecutionResult::Succeeded { detail, partial: p }) => r == (
            RepoStep::Continue { phase: RepoPhase::LargeFiles, partial: p }),
            PhaseReport::CloneDone(ExecutionResult::Skipped(_)) => r == (RepoStep::Continue {
                phase: RepoPhase::LargeFiles,
                partial,
            }),
            PhaseReport::LargeFilesDone => r == (RepoStep::Continue {
                phase: RepoPhase::Toolchain,
                partial,
            }),
            PhaseReport::ToolchainDone(ExecutionResult::Failed(f)) => r == RepoStep::Finish(
                ExecutionResult::Failed(f),
            ),
            PhaseReport::ToolchainDone(_) => r == (RepoStep::Continue {
                phase: RepoPhase::Sync,
                partial,
            }),
            PhaseReport::SyncDone(o) => if o.exit_succeeded {
                r matches RepoStep::Finish(ExecutionResult::Succeeded { detail, partial: p })
                    && p == partial && detail@ == REPOSITORY_READY@
            } else {
                r == RepoStep::Finish(
                    ExecutionResult::Failed(
                        Failure { kind: ErrorKind::ProcessExit, detail: o.stderr },
                    ),
                )
            },
        },
{
    match report {
        PhaseReport::ToolStarted(started) => {
            if started {
                RepoStep::Continue { phase: RepoPhase::Clone, partial }
            } else {
                RepoStep::Finish(
                    ExecutionResult::Failed(failure(ErrorKind::ProcessLaunch, TOOL_MISSING)),
                )
            }
        },
        PhaseReport::CloneDone(res) => match res {
            ExecutionResult::Failed(f) => RepoStep::Finish(ExecutionResult::Failed(f)),
            ExecutionResult::Succeeded { detail: _, partial: p } => RepoStep::Continue {
                phase: RepoPhase::LargeFiles,
                partial: p,
            },
            ExecutionResult::Skipped(_) => RepoStep::Continue {
                phase: RepoPhase::LargeFiles,
                partial,
            },
        },
        PhaseReport::LargeFilesDone => RepoStep::Continue { phase: RepoPhase::Toolchain, partial },
        PhaseReport::ToolchainDone(res) => match res {
            ExecutionResult::Failed(f) => RepoStep::Finish(ExecutionResult::Failed(f)),
            _ => RepoStep::Continue { phase: RepoPhase::Sync, partial },
        },
        PhaseReport::SyncDone(o) => {
            if o.exit_succeeded {
                RepoStep::Finish(
                    ExecutionResult::Succeeded { detail: REPOSITORY_READY.to_owned(), partial },
                )
            } else {
                RepoStep::Finish(
                    ExecutionResult::Failed(
                        Failure { kind: ErrorKind::ProcessExit, detail: o.stderr },
                    ),
                )
            }
        },
    }
}

} // verus!
