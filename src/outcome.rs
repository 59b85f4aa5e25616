//! Per-function results and the aggregate status of one build.
use vstd::prelude::*;

verus! {

/// Failures of the container run itself.
#[derive(Clone, Copy, Debug, PartialEq, Eq, Structural)]
pub enum ContainerError {
    CreateFailed,
    StartFailed,
    ExecFailed,
}

/// Failures of the metadata store that decide a function's outcome.
#[derive(Clone, Copy, Debug, PartialEq, Eq, Structural)]
pub enum LedgerError {
    LookupFailed,
    InsertFailed,
}

/// Why one function did not build and deploy.
#[derive(Clone, Copy, Debug, PartialEq, Eq, Structural)]
pub enum FailureReason {
    /// The template names no known builder image; no container was created.
    UnsupportedTemplate,
    Container(ContainerError),
    /// The build command exited with this code.
    BuildFailure(i64),
    /// The build exited successfully but the declared output is absent.
    OutputMissing,
    /// The output could not be copied into the builds directory.
    CopyFailed,
    CompressionError,
    UploadError,
    Ledger(LedgerError),
    /// The task stopped before it finished.
    Aborted,
}

/// Terminal outcome of one function task.
#[derive(Clone, Copy, Debug, PartialEq, Eq, Structural)]
pub enum Outcome {
    Succeeded,
    Failed(FailureReason),
    TimedOut,
}

/// Result of one function task.
#[derive(Clone, Debug)]
pub struct FunctionBuildResult {
    pub function_name: String,
    pub outcome: Outcome,
    /// Remote key of the uploaded artifact; present exactly on success.
    pub artifact_key: Option<String>,
}

impl FunctionBuildResult {
    /// The result of a function whose task stopped before it finished.
    pub fn aborted(function_name: &str) -> (r: FunctionBuildResult)
        ensures
            r.function_name@ == function_name@,
            r.outcome == Outcome::Failed(FailureReason::Aborted),
            r.artifact_key is None,
    {
        FunctionBuildResult {
            function_name: function_name.to_owned(),
            outcome: Outcome::Failed(FailureReason::Aborted),
            artifact_key: None,
        }
    }
}

/// Aggregate status of a build.
#[derive(Clone, Copy, Debug, PartialEq, Eq, Structural)]
pub enum OverallStatus {
    Success,
    PartialFailure,
    Failure,
}

/// Aggregate result handed to the status notifier.
#[derive(Clone, Debug)]
pub struct BuildOutcome {
    pub overall_status: OverallStatus,
    pub results: Vec<FunctionBuildResult>,
}

pub open spec fn succeeded(r: FunctionBuildResult) -> bool {
    r.outcome == Outcome::Succeeded
}

/// Number of succeeded results among the first `n` of `rs`.
pub open spec fn count_succeeded(rs: Seq<FunctionBuildResult>, n: int) -> nat
    decreases n,
{
    if n <= 0 {
        0
    } else {
        count_succeeded(rs, n - 1) + if succeeded(rs[n - 1]) { 1nat } else { 0nat }
    }
}

/// `Success` iff every result succeeded and there is at least one,
/// `Failure` iff none succeeded, `PartialFailure` otherwise.
pub open spec fn status_of(rs: Seq<FunctionBuildResult>) -> OverallStatus {
    if exists|i: int| 0 <= i < rs.len() && succeeded(#[trigger] rs[i]) {
        if forall|i: int| 0 <= i < rs.len() ==> succeeded(#[trigger] rs[i]) {
            OverallStatus::Success
        } else {
            OverallStatus::PartialFailure
        }
    } else {
        OverallStatus::Failure
    }
}

proof fn lemma_count_bounds(rs: Seq<FunctionBuildResult>, n: int)
    requires
        0 <= n <= rs.len(),
    ensures
        count_succeeded(rs, n) <= n,
        count_succeeded(rs, n) == 0 <==> forall|i: int| 0 <= i < n ==> !succeeded(#[trigger] rs[i]),
        count_succeeded(rs, n) == n <==> forall|i: int| 0 <= i < n ==> succeeded(#[trigger] rs[i]),
    decreases n,
{
    if n > 0 {
        lemma_count_bounds(rs, n - 1);
        if !succeeded(rs[n - 1]) {
            assert(count_succeeded(rs, n) == count_succeeded(rs, n - 1));
        }
    }
}

/// The aggregate status by counts: `Success` exactly when all of at least
/// one function succeeded, `Failure` exactly when none succeeded (an empty
/// build included), `PartialFailure` exactly when some but not all did.
pub proof fn lemma_status_by_count(rs: Seq<FunctionBuildResult>)
    ensures
        status_of(rs) == OverallStatus::Success <==> rs.len() >= 1 && count_succeeded(rs, rs.len() as int) == rs.len(),
        status_of(rs) == OverallStatus::Failure <==> count_succeeded(rs, rs.len() as int) == 0,
        status_of(rs) == OverallStatus::PartialFailure <==> 0 < count_succeeded(rs, rs.len() as int) < rs.len(),
{
    lemma_count_bounds(rs, rs.len() as int);
    if rs.len() >= 1 && count_succeeded(rs, rs.len() as int) == rs.len() {
        assert(succeeded(rs[0]));
    }
}

impl Outcome {
    pub fn is_succeeded(&self) -> (r: bool)
        ensures
            r == (*self == Outcome::Succeeded),
    {
        match self {
            Outcome::Succeeded => true,
            _ => false,
        }
    }
}

/// Aggregate status of a set of per-function results.
pub fn aggregate(results: &Vec<FunctionBuildResult>) -> (r: OverallStatus)
    ensures
        r == status_of(results@),
{
    let mut ok: usize = 0;
    let mut i: usize = 0;
    while i < results.len()
        invariant
            0 <= i <= results@.len(),
            ok == count_succeeded(results@, i as int),
            ok <= i,
        decreases results@.len() - i,
    {
        if results[i].outcome.is_succeeded() {
            ok = ok + 1;
        }
        i = i + 1;
    }
    proof {
        lemma_count_bounds(results@, results@.len() as int);
    }
    if ok == 0 {
        OverallStatus::Failure
    } else if ok == results.len() {
        assert(succeeded(results@[0]));
        OverallStatus::Success
    } else {
        OverallStatus::PartialFailure
    }
}

impl BuildOutcome {
    /// Collects the per-function results into the aggregate outcome.
    pub fn from_results(results: Vec<FunctionBuildResult>) -> (r: BuildOutcome)
        ensures
            r.results@ == results@,
            r.overall_status == status_of(results@),
    {
        let overall_status = aggregate(&results);
        BuildOutcome { overall_status, results }
    }
}

} // verus!
