//! Read-only probes of the install root: whether each stage's goal state
//! already holds, and which launch target to start. The caller gathers the
//! plain facts (which paths exist, what a version query printed); these
//! functions decide.
use vstd::prelude::*;
use crate::outcome::{ErrorKind, Failure, ProcessOutcome, failure};
use crate::text::{
    chars_of, ends_with, ends_with_chars, push_all, string_of, trim_text, trimmed,
};

verus! {

/// The number of `true` entries of `s`.
pub open spec fn count_true(s: Seq<bool>) -> nat
    decreases s.len(),
{
    if s.len() == 0 {
        0
    } else {
        count_true(s.drop_last()) + if s.last() {
            1nat
        } else {
            0nat
        }
    }
}

/// The bundle counts as acquired when at least this many markers exist.
pub const BUNDLE_MARKER_QUORUM: usize = 2;

pub const PAGE_MARKER: &'static str = "index.html";

pub const API_MARKER: &'static str = "indextts_api.py";

pub const START_ALL_SCRIPT: &'static str = "start-all.bat";

pub const ONE_CLICK_SCRIPT: &'static str = "AAA一键启动.bat";

pub const START_SCRIPT: &'static str = "start.bat";

pub const WEB_LAUNCHER_SCRIPT: &'static str = "launcher_web.py";

/// The marker files, relative to the root, whose presence shows that the
/// bundle was acquired.
pub fn bundle_markers() -> (r: Vec<&'static str>)
    ensures
        r@ == seq![PAGE_MARKER, API_MARKER, START_ALL_SCRIPT, ONE_CLICK_SCRIPT],
{
    vec![PAGE_MARKER, API_MARKER, START_ALL_SCRIPT, ONE_CLICK_SCRIPT]
}

/// Given which markers exist, the number found when the bundle counts as
/// acquired, else `NotFound`.
pub fn bundle_status(present: &Vec<bool>) -> (r: Result<usize, Failure>)
    ensures
        match r {
            Ok(n) => n == count_true(present@) && n >= BUNDLE_MARKER_QUORUM,
            Err(f) => count_true(present@) < BUNDLE_MARKER_QUORUM && f.kind == ErrorKind::NotFound,
        },
{
    let mut n: usize = 0;
    for i in 0..present.len()
        invariant
            n == count_true(present@.take(i as int)),
            n <= i,
    {
        assert(present@.take(i + 1).drop_last() =~= present@.take(i as int));
        if present[i] {
            n += 1;
        }
    }
    assert(present@.take(present.len() as int) =~= present@);
    if n >= BUNDLE_MARKER_QUORUM {
        Ok(n)
    } else {
        Err(failure(ErrorKind::NotFound, "not installed"))
    }
}

/// Where a usable interpreter was found.
#[derive(Clone, Copy, Debug, PartialEq, Eq, Structural)]
pub enum InterpreterSource {
    /// The portable interpreter under the install root.
    Portable,
    /// An interpreter on the system search path.
    System,
}

/// A usable interpreter and the version text it reported.
#[derive(Clone, Debug, PartialEq, Eq)]
pub struct InterpreterFound {
    pub source: InterpreterSource,
    pub version: String,
}

/// A version query that started and exited successfully.
pub open spec fn usable(q: Option<ProcessOutcome>) -> bool {
    q is Some && q->Some_0.exit_succeeded
}

/// The version text of a usable query.
pub open spec fn version_of(q: Option<ProcessOutcome>) -> Seq<char> {
    trimmed(q->Some_0.stdout@)
}

fn found(source: InterpreterSource, q: &ProcessOutcome) -> (r: InterpreterFound)
    ensures
        r.source == source,
        r.version@ == trimmed(q.stdout@),
{
    InterpreterFound { source, version: trim_text(q.stdout.as_str()) }
}

/// The version queries, in the order they are tried: the portable
/// interpreter, the system's `python`, the system's `python3`.
pub const PORTABLE_QUERY: usize = 0;

pub const PYTHON_QUERY: usize = 1;

pub const PYTHON3_QUERY: usize = 2;

/// Where the interpreter of query `i` lives.
pub open spec fn source_of(i: int) -> InterpreterSource {
    if i == PORTABLE_QUERY {
        InterpreterSource::Portable
    } else {
        InterpreterSource::System
    }
}

/// The next step of an interpreter probe.
#[derive(Clone, Debug, PartialEq, Eq)]
pub enum InterpreterStep {
    /// Run version query `i` and report its outcome.
    Query(usize),
    /// A usable interpreter was found; no further query runs.
    Found(InterpreterFound),
    /// Every query up to the last one failed.
    Missing,
}

/// The first query: the portable interpreter when its executable exists,
/// else the system's `python`.
pub fn interpreter_first(portable_exists: bool) -> (r: InterpreterStep)
    ensures
        r == InterpreterStep::Query(
            if portable_exists {
                PORTABLE_QUERY
            } else {
                PYTHON_QUERY
            },
        ),
{
    if portable_exists {
        InterpreterStep::Query(PORTABLE_QUERY)
    } else {
        InterpreterStep::Query(PYTHON_QUERY)
    }
}

/// The step after query `i` gave `q` (`None` when it could not start);
/// `last` is the final query of this probe. A later query is asked for only
/// when this one is not usable.
pub fn interpreter_after(i: usize, last: usize, q: &Option<ProcessOutcome>) -> (r: InterpreterStep)
    requires
        i <= last <= PYTHON3_QUERY,
    ensures
        usable(*q) ==> (r matches InterpreterStep::Found(f) && f.source == source_of(i as int)
            && f.version@ == version_of(*q)),
        !usable(*q) && i < last ==> r == InterpreterStep::Query((i + 1) as usize),
        !usable(*q) && i == last ==> r == InterpreterStep::Missing,
{
    if let Some(o) = q {
        if o.exit_succeeded {
            let source = if i == PORTABLE_QUERY {
                InterpreterSource::Portable
            } else {
                InterpreterSource::System
            };
            return InterpreterStep::Found(found(source, o));
        }
    }
    if i < last {
        InterpreterStep::Query(i + 1)
    } else {
        InterpreterStep::Missing
    }
}

/// How the interpreter stage reaches its goal.
#[derive(Clone, Debug, PartialEq, Eq)]
pub enum InterpreterPlan {
    /// The portable interpreter already works: nothing to do.
    KeepPortable(String),
    /// A system interpreter works: use it, download nothing.
    UseSystem(String),
    /// Download and set up the portable interpreter.
    Download,
}

/// The interpreter stage's plan once its probe (portable interpreter, then
/// the system's `python`) has ended.
pub fn interpreter_plan(step: InterpreterStep) -> (r: InterpreterPlan)
    requires
        !(step is Query),
    ensures
        match step {
            InterpreterStep::Found(f) => if f.source == InterpreterSource::Portable {
                r == InterpreterPlan::KeepPortable(f.version)
            } else {
                r == InterpreterPlan::UseSystem(f.version)
            },
            _ => r == InterpreterPlan::Download,
        },
{
    match step {
        InterpreterStep::Found(f) => match f.source {
            InterpreterSource::Portable => InterpreterPlan::KeepPortable(f.version),
            InterpreterSource::System => InterpreterPlan::UseSystem(f.version),
        },
        _ => InterpreterPlan::Download,
    }
}

/// A tool that ran to completion must have succeeded; otherwise its error
/// output is the diagnostic of a `ProcessExit` failure.
pub fn require_success(o: &ProcessOutcome) -> (r: Result<(), Failure>)
    ensures
        o.exit_succeeded ==> r is Ok,
        !o.exit_succeeded ==> r == Err::<(), Failure>(
            Failure { kind: ErrorKind::ProcessExit, detail: o.stderr },
        ),
{
    if o.exit_succeeded {
        Ok(())
    } else {
        Err(Failure { kind: ErrorKind::ProcessExit, detail: o.stderr.clone() })
    }
}

pub const PORTABLE_ARCHIVE_HEAD: &'static str = "https://www.python.org/ftp/python/";

pub const PORTABLE_ARCHIVE_MIDDLE: &'static str = "/python-";

pub const PORTABLE_ARCHIVE_TAIL: &'static str = "-embed-amd64.zip";

/// The download address of the embeddable interpreter of `version`.
pub fn portable_archive_url(version: &str) -> (r: String)
    ensures
        r@ == PORTABLE_ARCHIVE_HEAD@ + version@ + PORTABLE_ARCHIVE_MIDDLE@ + version@
            + PORTABLE_ARCHIVE_TAIL@,
{
    let v = chars_of(version);
    let mut out = chars_of(PORTABLE_ARCHIVE_HEAD);
    push_all(&mut out, &v);
    push_all(&mut out, &chars_of(PORTABLE_ARCHIVE_MIDDLE));
    push_all(&mut out, &v);
    push_all(&mut out, &chars_of(PORTABLE_ARCHIVE_TAIL));
    string_of(&out)
}

/// How an existing repository directory came to be.
#[derive(Clone, Copy, Debug, PartialEq, Eq, Structural)]
pub enum RepoProvenance {
    /// A clone: the version-control marker is present.
    Cloned,
    /// A plain directory without the marker.
    PlainDirectory,
}

/// The repository probe: `NotFound` when the directory is absent.
pub fn repository_status(dir_exists: bool, has_vcs_marker: bool) -> (r: Result<
    RepoProvenance,
    Failure,
>)
    ensures
        dir_exists && has_vcs_marker ==> r == Ok::<RepoProvenance, Failure>(RepoProvenance::Cloned),
        dir_exists && !has_vcs_marker ==> r == Ok::<RepoProvenance, Failure>(
            RepoProvenance::PlainDirectory,
        ),
        !dir_exists ==> (r matches Err(f) && f.kind == ErrorKind::NotFound),
{
    if !dir_exists {
        Err(failure(ErrorKind::NotFound, "not installed"))
    } else if has_vcs_marker {
        Ok(RepoProvenance::Cloned)
    } else {
        Ok(RepoProvenance::PlainDirectory)
    }
}

/// The repository stage's goal holds when the directory is a clone.
pub fn repository_goal_holds(status: &Result<RepoProvenance, Failure>) -> (r: bool)
    ensures
        r == (*status matches Ok(RepoProvenance::Cloned)),
{
    match status {
        Ok(RepoProvenance::Cloned) => true,
        _ => false,
    }
}

/// The model stage's goal holds when its directory exists and is not empty.
pub fn model_present(dir_exists: bool, has_entry: bool) -> (r: bool)
    ensures
        r == (dir_exists && has_entry),
{
    dir_exists && has_entry
}

/// The candidate entry points under the root, in the order they are tried.
pub fn launch_targets() -> (r: Vec<&'static str>)
    ensures
        r@ == seq![ONE_CLICK_SCRIPT, START_ALL_SCRIPT, START_SCRIPT, WEB_LAUNCHER_SCRIPT],
{
    vec![ONE_CLICK_SCRIPT, START_ALL_SCRIPT, START_SCRIPT, WEB_LAUNCHER_SCRIPT]
}

pub const SCRIPT_SUFFIX: &'static str = ".py";

/// How a launch target is started.
#[derive(Clone, Copy, Debug, PartialEq, Eq, Structural)]
pub enum LaunchVia {
    /// Through the command shell.
    Shell,
    /// As a script of the interpreter.
    Interpreter,
}

/// The launch target to start and how.
#[derive(Clone, Copy, Debug, PartialEq, Eq, Structural)]
pub struct LaunchPlan {
    pub index: usize,
    pub via: LaunchVia,
}

/// The first `true` entry of `s` at or after `from`.
pub open spec fn first_true(s: Seq<bool>, from: int) -> Option<int>
    decreases s.len() - from,
{
    if from < 0 || from >= s.len() {
        None
    } else if s[from] {
        Some(from)
    } else {
        first_true(s, from + 1)
    }
}

/// The first of `names` that is `present`, started as an interpreter script
/// when its name ends in `.py` and through the shell otherwise; `NotFound`
/// when none is present.
pub fn choose_launch(names: &Vec<&str>, present: &Vec<bool>) -> (r: Result<LaunchPlan, Failure>)
    requires
        names.len() == present.len(),
    ensures
        match first_true(present@, 0) {
            Some(i) => r == Ok::<LaunchPlan, Failure>(
                LaunchPlan {
                    index: i as usize,
                    via: if ends_with(names@[i]@, SCRIPT_SUFFIX@) {
                        LaunchVia::Interpreter
                    } else {
                        LaunchVia::Shell
                    },
                },
            ),
            None => r matches Err(f) && f.kind == ErrorKind::NotFound,
        },
{
    let mut i: usize = 0;
    while i < present.len() && !present[i]
        invariant
            names.len() == present.len(),
            i <= present.len(),
            first_true(present@, 0) == first_true(present@, i as int),
        decreases present.len() - i,
    {
        i += 1;
    }
    if i == present.len() {
        return Err(failure(ErrorKind::NotFound, "no launch script found"));
    }
    let name = chars_of(names[i]);
    let via = if ends_with_chars(&name, &chars_of(SCRIPT_SUFFIX)) {
        LaunchVia::Interpreter
    } else {
        LaunchVia::Shell
    };
    Ok(LaunchPlan { index: i, via })
}

} // verus!
