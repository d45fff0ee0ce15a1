use eva_launcher::chain::{
    chain_after, chain_resume, chain_start, classify_clone, classify_exit, classify_provider,
    classify_started, AttemptClass, Candidate, ChainStep,
};
use eva_launcher::outcome::{ErrorKind, ExecutionResult, Failure, ProcessOutcome};

fn outcome(ok: bool, out: &str, err: &str) -> ProcessOutcome {
    ProcessOutcome { exit_succeeded: ok, stdout: out.to_string(), stderr: err.to_string() }
}

fn clone_chain() -> Vec<Candidate> {
    vec![Candidate { ready: true, degraded: false }, Candidate { ready: true, degraded: true }]
}

#[test]
fn quota_failure_falls_back_after_cleanup() {
    let c = clone_chain();
    assert_eq!(chain_start(&c), ChainStep::Attempt(0));
    let first = outcome(true, "", "batch response: This repository is over its LFS budget");
    let class = classify_clone(&first);
    assert_eq!(class, AttemptClass::Recoverable);
    let step = chain_after(&c, 0, class, first.stderr.clone());
    assert_eq!(step, ChainStep::CleanUp(0));
    let step = chain_resume(&c, 0, first.stderr.clone());
    assert_eq!(step, ChainStep::Attempt(1));
    let second = outcome(true, "cloned", "");
    let step = chain_after(&c, 1, classify_exit(&second), "cloned".to_string());
    assert_eq!(
        step,
        ChainStep::Finish(ExecutionResult::Succeeded { detail: "cloned".to_string(), partial: true })
    );
}

#[test]
fn smudge_signature_in_stdout_is_recoverable() {
    let o = outcome(true, "error: external filter: smudge filter lfs failed", "");
    assert_eq!(classify_clone(&o), AttemptClass::Recoverable);
    assert_eq!(classify_clone(&outcome(true, "done", "warning")), AttemptClass::Succeeded);
    assert_eq!(classify_clone(&outcome(false, "", "")), AttemptClass::Recoverable);
}

#[test]
fn exhausted_chain_reports_last_detail() {
    let c = clone_chain();
    let step = chain_resume(&c, 1, "second failed".to_string());
    assert_eq!(
        step,
        ChainStep::Finish(ExecutionResult::Failed(Failure {
            kind: ErrorKind::ProcessExit,
            detail: "second failed".to_string()
        }))
    );
}

#[test]
fn unready_candidates_are_passed_over() {
    let c = vec![
        Candidate { ready: false, degraded: false },
        Candidate { ready: false, degraded: false },
        Candidate { ready: true, degraded: false },
    ];
    assert_eq!(chain_start(&c), ChainStep::Attempt(2));
    let none = vec![Candidate { ready: false, degraded: false }];
    match chain_start(&none) {
        ChainStep::Finish(ExecutionResult::Failed(f)) => assert_eq!(f.kind, ErrorKind::NotFound),
        other => panic!("unexpected {:?}", other),
    }
}

#[test]
fn fatal_failure_stops_chain() {
    let c = clone_chain();
    assert_eq!(
        chain_after(&c, 0, AttemptClass::Fatal, "boom".to_string()),
        ChainStep::Finish(ExecutionResult::Failed(Failure {
            kind: ErrorKind::ProcessExit,
            detail: "boom".to_string()
        }))
    );
    assert_eq!(classify_exit(&outcome(false, "", "x")), AttemptClass::Recoverable);
}

#[test]
fn toolchain_and_provider_classifiers() {
    assert_eq!(classify_started(true), AttemptClass::Succeeded);
    assert_eq!(classify_started(false), AttemptClass::Recoverable);
    assert_eq!(classify_provider(&outcome(false, "", "no uv"), &None), AttemptClass::Recoverable);
    assert_eq!(
        classify_provider(&outcome(true, "", ""), &Some(outcome(true, "", ""))),
        AttemptClass::Succeeded
    );
    assert_eq!(
        classify_provider(&outcome(true, "", ""), &Some(outcome(false, "", "quota"))),
        AttemptClass::Recoverable
    );
}
