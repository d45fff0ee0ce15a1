//! The fallback chain: ordered candidate strategies for one stage, tried in
//! turn until one succeeds. The chain decides; the caller performs each
//! attempt and clean-up it is told to and reports back.
use vstd::prelude::*;
use crate::outcome::{ErrorKind, ExecutionResult, Failure, ProcessOutcome, failure};
use crate::text::{contains, str_contains};

verus! {

/// How a candidate's attempt ended, as its classifier judged it.
#[derive(Clone, Copy, Debug, PartialEq, Eq, Structural)]
pub enum AttemptClass {
    Succeeded,
    /// Failed with a known recoverable signature: clean up, then fall back.
    Recoverable,
    /// Failed in a way no later candidate can mend.
    Fatal,
}

/// One strategy of a chain: whether its precondition holds, and whether a
/// success through it is degraded (for instance a clone without large files).
#[derive(Clone, Copy, Debug, PartialEq, Eq, Structural)]
pub struct Candidate {
    pub ready: bool,
    pub degraded: bool,
}

/// What the caller does next.
#[derive(Clone, Debug, PartialEq, Eq)]
pub enum ChainStep {
    /// Run candidate `i`.
    Attempt(usize),
    /// Remove what candidate `i` left behind, then resume the chain.
    CleanUp(usize),
    /// The chain is over with this result.
    Finish(ExecutionResult),
}

/// The first candidate at or after `from` whose precondition holds.
pub open spec fn first_ready(c: Seq<Candidate>, from: int) -> Option<int>
    decreases c.len() - from,
{
    if from < 0 || from >= c.len() {
        None
    } else if c[from].ready {
        Some(from)
    } else {
        first_ready(c, from + 1)
    }
}

/// The step after candidate `i` ended as `class` with diagnostic `detail`.
pub open spec fn step_after(
    c: Seq<Candidate>,
    i: int,
    class: AttemptClass,
    detail: String,
) -> ChainStep {
    match class {
        AttemptClass::Succeeded => ChainStep::Finish(
            ExecutionResult::Succeeded { detail, partial: c[i].degraded },
        ),
        AttemptClass::Recoverable => ChainStep::CleanUp(i as usize),
        AttemptClass::Fatal => ChainStep::Finish(
            ExecutionResult::Failed(Failure { kind: ErrorKind::ProcessExit, detail }),
        ),
    }
}

/// The step once candidate `i`'s leftovers are removed; `detail` is its
/// diagnostic, reported if no candidate remains.
pub open spec fn step_resume(c: Seq<Candidate>, i: int, detail: String) -> ChainStep {
    match first_ready(c, i + 1) {
        Some(j) => ChainStep::Attempt(j as usize),
        None => ChainStep::Finish(
            ExecutionResult::Failed(Failure { kind: ErrorKind::ProcessExit, detail }),
        ),
    }
}

/// The index of the first ready candidate at or after `from`.
pub fn next_ready(c: &Vec<Candidate>, from: usize) -> (r: Option<usize>)
    ensures
        match r {
            Some(i) => first_ready(c@, from as int) == Some(i as int),
            None => first_ready(c@, from as int) is None,
        },
{
    let mut i: usize = from;
    while i < c.len() && !c[i].ready
        invariant
            from <= i,
            first_ready(c@, from as int) == first_ready(c@, i as int),
        decreases c.len() - i,
    {
        i += 1;
    }
    if i < c.len() {
        Some(i)
    } else {
        None
    }
}

/// The first step of a chain: attempt the first ready candidate, or fail
/// with `NotFound` when none is ready.
pub fn chain_start(c: &Vec<Candidate>) -> (r: ChainStep)
    ensures
        match first_ready(c@, 0) {
            Some(i) => r == ChainStep::Attempt(i as usize),
            None => r matches ChainStep::Finish(ExecutionResult::Failed(f)) && f.kind
                == ErrorKind::NotFound,
        },
{
    match next_ready(c, 0) {
        Some(i) => ChainStep::Attempt(i),
        None => ChainStep::Finish(
            ExecutionResult::Failed(failure(ErrorKind::NotFound, "no applicable strategy")),
        ),
    }
}

/// The step after candidate `i` ended as `class` with diagnostic `detail`.
pub fn chain_after(c: &Vec<Candidate>, i: usize, class: AttemptClass, detail: String) -> (r:
    ChainStep)
    requires
        i < c.len(),
    ensures
        r == step_after(c@, i as int, class, detail),
{
    match class {
        AttemptClass::Succeeded => ChainStep::Finish(
            ExecutionResult::Succeeded { detail, partial: c[i].degraded },
        ),
        AttemptClass::Recoverable => ChainStep::CleanUp(i),
        AttemptClass::Fatal => ChainStep::Finish(
            ExecutionResult::Failed(Failure { kind: ErrorKind::ProcessExit, detail }),
        ),
    }
}

/// The step once candidate `i`'s leftovers are removed.
pub fn chain_resume(c: &Vec<Candidate>, i: usize, detail: String) -> (r: ChainStep)
    requires
        i < c.len(),
    ensures
        r == step_resume(c@, i as int, detail),
{
    match next_ready(c, i + 1) {
        Some(j) => ChainStep::Attempt(j),
        None => ChainStep::Finish(
            ExecutionResult::Failed(Failure { kind: ErrorKind::ProcessExit, detail }),
        ),
    }
}

/// A recoverable failure of candidate `i` is first cleaned up, and the next
/// ready candidate `j` is then attempted before any failure is reported.
pub proof fn lemma_fallback_order(c: Seq<Candidate>, i: int, j: int, detail: String)
    requires
        0 <= i < j < c.len(),
        c[j].ready,
        forall|k: int| i < k < j ==> !#[trigger] c[k].ready,
    ensures
        step_after(c, i, AttemptClass::Recoverable, detail) == ChainStep::CleanUp(i as usize),
        step_resume(c, i, detail) == ChainStep::Attempt(j as usize),
    decreases j - i,
{
    if i + 1 < j {
        lemma_fallback_order(c, i + 1, j, detail);
    }
}

/// Output text of a clone whose large-file transfer ran out of quota.
pub const LFS_BUDGET: &'static str = "LFS budget";

/// Output text of a clone whose large-file smudge filter failed.
pub const LFS_SMUDGE_FAILED: &'static str = "smudge filter lfs failed";

/// A clone needs the fallback when it failed or its output names a
/// large-file failure.
pub open spec fn clone_needs_fallback(o: ProcessOutcome) -> bool {
    !o.exit_succeeded || contains(o.stdout@, LFS_BUDGET@) || contains(o.stderr@, LFS_BUDGET@)
        || contains(o.stdout@, LFS_SMUDGE_FAILED@) || contains(o.stderr@, LFS_SMUDGE_FAILED@)
}

/// Classifies a clone attempt by its exit status and large-file signatures.
pub fn classify_clone(o: &ProcessOutcome) -> (r: AttemptClass)
    ensures
        r == (if clone_needs_fallback(*o) {
            AttemptClass::Recoverable
        } else {
            AttemptClass::Succeeded
        }),
{
    if !o.exit_succeeded || str_contains(o.stdout.as_str(), LFS_BUDGET) || str_contains(
        o.stderr.as_str(),
        LFS_BUDGET,
    ) || str_contains(o.stdout.as_str(), LFS_SMUDGE_FAILED) || str_contains(
        o.stderr.as_str(),
        LFS_SMUDGE_FAILED,
    ) {
        AttemptClass::Recoverable
    } else {
        AttemptClass::Succeeded
    }
}

/// Classifies an attempt by its exit status alone; any failure lets the
/// chain fall back.
pub fn classify_exit(o: &ProcessOutcome) -> (r: AttemptClass)
    ensures
        r == (if o.exit_succeeded {
            AttemptClass::Succeeded
        } else {
            AttemptClass::Recoverable
        }),
{
    if o.exit_succeeded {
        AttemptClass::Succeeded
    } else {
        AttemptClass::Recoverable
    }
}

/// Classifies a candidate that only needs its tool to start: started is
/// success, whatever the exit status; failing to start lets the chain fall
/// back.
pub fn classify_started(started: bool) -> (r: AttemptClass)
    ensures
        r == (if started {
            AttemptClass::Succeeded
        } else {
            AttemptClass::Recoverable
        }),
{
    if started {
        AttemptClass::Succeeded
    } else {
        AttemptClass::Recoverable
    }
}

/// Classifies a provider candidate that first installs its tool and then
/// downloads with it: a failed install lets the chain fall back without a
/// download; otherwise the download's exit status decides.
pub fn classify_provider(install: &ProcessOutcome, download: &Option<ProcessOutcome>) -> (r:
    AttemptClass)
    requires
        install.exit_succeeded ==> download is Some,
    ensures
        !install.exit_succeeded ==> r == AttemptClass::Recoverable,
        install.exit_succeeded ==> r == (if download->Some_0.exit_succeeded {
            AttemptClass::Succeeded
        } else {
            AttemptClass::Recoverable
        }),
{
    if !install.exit_succeeded {
        return AttemptClass::Recoverable;
    }
    match download {
        Some(d) => classify_exit(d),
        None => AttemptClass::Recoverable,
    }
}

} // verus!
