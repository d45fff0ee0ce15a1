use eva_launcher::outcome::{ErrorKind, ExecutionResult, Failure, ProcessOutcome};
use eva_launcher::pipeline::{
    decide, repo_next, PhaseReport, PipelineRun, RepoPhase, RepoStep, StageDecision, StageKind,
};

fn ok(detail: &str) -> ExecutionResult {
    ExecutionResult::Succeeded { detail: detail.to_string(), partial: false }
}

fn run(goals: Vec<Option<&str>>, outcomes: Vec<ExecutionResult>) -> Vec<ExecutionResult> {
    let mut p = PipelineRun::new();
    let mut i = 0;
    while let Some(_) = p.next_stage() {
        let goal = goals[i].map(|s| s.to_string());
        let d = p.next_decision(goal.is_some());
        let outcome = if d == StageDecision::Run { Some(outcomes[i].clone()) } else { None };
        p.record(goal, outcome);
        i += 1;
    }
    assert!(p.is_done());
    p.results().clone()
}

#[test]
fn fresh_root_then_rerun_skips() {
    let outcomes = vec![ok("interp"), ok("bundle"), ok("repo"), ok("model"), ok("launched")];
    let first = run(vec![None, None, None, None, None], outcomes.clone());
    assert_eq!(first.len(), 5);
    assert_eq!(first, outcomes);
    let second = run(vec![Some("portable"), Some("4 files"), Some("cloned"), None, None], outcomes.clone());
    assert_eq!(second.len(), 5);
    assert_eq!(second[0], ExecutionResult::Skipped("portable".to_string()));
    assert_eq!(second[1], ExecutionResult::Skipped("4 files".to_string()));
    assert_eq!(second[2], ExecutionResult::Skipped("cloned".to_string()));
    assert_eq!(second[3], ok("model"));
    let third = run(vec![Some("p"), Some("b"), Some("r"), Some("m"), None], outcomes);
    assert_eq!(third[3], ExecutionResult::Skipped("m".to_string()));
}

#[test]
fn interpreter_failure_blocks_dependent_stages() {
    let fail = ExecutionResult::Failed(Failure { kind: ErrorKind::Network, detail: "x".to_string() });
    let outcomes = vec![fail.clone(), ok("bundle"), ok("repo"), ok("model"), ok("launched")];
    let r = run(vec![None, None, None, None, None], outcomes);
    assert_eq!(r[0], fail);
    assert_eq!(r[1], ok("bundle"));
    assert!(matches!(&r[2], ExecutionResult::Failed(f) if f.kind == ErrorKind::NotFound));
    assert!(matches!(&r[3], ExecutionResult::Failed(f) if f.kind == ErrorKind::NotFound));
    assert_eq!(r[4], ok("launched"));
}

#[test]
fn decisions() {
    assert_eq!(decide(StageKind::Bundle, true, false), StageDecision::Skip);
    assert_eq!(decide(StageKind::Model, false, false), StageDecision::Blocked);
    assert_eq!(decide(StageKind::Launch, false, false), StageDecision::Run);
}

#[test]
fn repository_stage_steps() {
    assert!(matches!(
        repo_next(RepoPhase::CheckTool, false, PhaseReport::ToolStarted(false)),
        RepoStep::Finish(ExecutionResult::Failed(f)) if f.kind == ErrorKind::ProcessLaunch
    ));
    let s = repo_next(
        RepoPhase::Clone,
        false,
        PhaseReport::CloneDone(ExecutionResult::Succeeded { detail: String::new(), partial: true }),
    );
    assert_eq!(s, RepoStep::Continue { phase: RepoPhase::LargeFiles, partial: true });
    assert_eq!(
        repo_next(RepoPhase::LargeFiles, true, PhaseReport::LargeFilesDone),
        RepoStep::Continue { phase: RepoPhase::Toolchain, partial: true }
    );
    let sync = ProcessOutcome { exit_succeeded: true, stdout: String::new(), stderr: String::new() };
    match repo_next(RepoPhase::Sync, true, PhaseReport::SyncDone(sync)) {
        RepoStep::Finish(ExecutionResult::Succeeded { partial, .. }) => assert!(partial),
        other => panic!("unexpected {:?}", other),
    }
    let bad = ProcessOutcome { exit_succeeded: false, stdout: String::new(), stderr: "e".to_string() };
    assert_eq!(
        repo_next(RepoPhase::Sync, false, PhaseReport::SyncDone(bad)),
        RepoStep::Finish(ExecutionResult::Failed(Failure {
            kind: ErrorKind::ProcessExit,
            detail: "e".to_string()
        }))
    );
}
