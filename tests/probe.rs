use eva_launcher::outcome::{ErrorKind, ProcessOutcome};
use eva_launcher::probe::{
    bundle_markers, bundle_status, choose_launch, interpreter_after, interpreter_first,
    interpreter_plan, launch_targets, model_present, portable_archive_url, repository_goal_holds,
    repository_status, require_success, InterpreterPlan, InterpreterSource, InterpreterStep,
    LaunchPlan, LaunchVia, RepoProvenance,
};

fn version(ok: bool, out: &str) -> Option<ProcessOutcome> {
    Some(ProcessOutcome { exit_succeeded: ok, stdout: out.to_string(), stderr: String::new() })
}

#[test]
fn bundle_needs_two_markers() {
    assert_eq!(bundle_markers().len(), 4);
    assert_eq!(bundle_status(&vec![true, false, true, false]).unwrap(), 2);
    assert_eq!(bundle_status(&vec![true, true, true, true]).unwrap(), 4);
    assert_eq!(bundle_status(&vec![false, false, true, false]).unwrap_err().kind, ErrorKind::NotFound);
    assert_eq!(bundle_status(&vec![]).unwrap_err().kind, ErrorKind::NotFound);
}

#[test]
fn interpreter_prefers_portable() {
    assert_eq!(interpreter_first(true), InterpreterStep::Query(0));
    match interpreter_after(0, 2, &version(true, "Python 3.10.9\r\n")) {
        InterpreterStep::Found(f) => {
            assert_eq!(f.source, InterpreterSource::Portable);
            assert_eq!(f.version, "Python 3.10.9");
        }
        other => panic!("unexpected {:?}", other),
    }
}

#[test]
fn interpreter_queries_in_order_until_python3() {
    assert_eq!(interpreter_first(false), InterpreterStep::Query(1));
    assert_eq!(interpreter_after(0, 2, &None), InterpreterStep::Query(1));
    assert_eq!(interpreter_after(1, 2, &version(false, "")), InterpreterStep::Query(2));
    match interpreter_after(2, 2, &version(true, " Python 3.11.2 ")) {
        InterpreterStep::Found(f) => {
            assert_eq!(f.source, InterpreterSource::System);
            assert_eq!(f.version, "Python 3.11.2");
        }
        other => panic!("unexpected {:?}", other),
    }
    assert_eq!(interpreter_after(2, 2, &version(false, "")), InterpreterStep::Missing);
}

#[test]
fn interpreter_plan_choices() {
    let portable = interpreter_after(0, 1, &version(true, "Python 3.10.9\n"));
    assert_eq!(interpreter_plan(portable), InterpreterPlan::KeepPortable("Python 3.10.9".to_string()));
    let system = interpreter_after(1, 1, &version(true, "Python 3.9.1"));
    assert_eq!(interpreter_plan(system), InterpreterPlan::UseSystem("Python 3.9.1".to_string()));
    let missing = interpreter_after(1, 1, &None);
    assert_eq!(missing, InterpreterStep::Missing);
    assert_eq!(interpreter_plan(missing), InterpreterPlan::Download);
}

#[test]
fn tool_exit_status_required() {
    let ok = ProcessOutcome { exit_succeeded: true, stdout: String::new(), stderr: String::new() };
    assert!(require_success(&ok).is_ok());
    let bad = ProcessOutcome { exit_succeeded: false, stdout: String::new(), stderr: "no pip".to_string() };
    let f = require_success(&bad).unwrap_err();
    assert_eq!(f.kind, ErrorKind::ProcessExit);
    assert_eq!(f.detail, "no pip");
}

#[test]
fn repository_goal_needs_clone() {
    assert!(repository_goal_holds(&repository_status(true, true)));
    assert!(!repository_goal_holds(&repository_status(true, false)));
    assert!(!repository_goal_holds(&repository_status(false, false)));
}

#[test]
fn portable_url_formula() {
    assert_eq!(
        portable_archive_url("3.10.9"),
        "https://www.python.org/ftp/python/3.10.9/python-3.10.9-embed-amd64.zip"
    );
}

#[test]
fn repository_provenance() {
    assert_eq!(repository_status(true, true).unwrap(), RepoProvenance::Cloned);
    assert_eq!(repository_status(true, false).unwrap(), RepoProvenance::PlainDirectory);
    assert_eq!(repository_status(false, true).unwrap_err().kind, ErrorKind::NotFound);
}

#[test]
fn model_needs_non_empty_directory() {
    assert!(model_present(true, true));
    assert!(!model_present(true, false));
    assert!(!model_present(false, false));
}

#[test]
fn launch_picks_first_present() {
    let names = launch_targets();
    assert_eq!(
        choose_launch(&names, &vec![true, true, false, false]).unwrap(),
        LaunchPlan { index: 0, via: LaunchVia::Shell }
    );
    assert_eq!(
        choose_launch(&names, &vec![false, false, false, true]).unwrap(),
        LaunchPlan { index: 3, via: LaunchVia::Interpreter }
    );
    assert_eq!(
        choose_launch(&names, &vec![false, false, false, false]).unwrap_err().kind,
        ErrorKind::NotFound
    );
}
