//! Review and CI status of a pull request: the per-check classification
//! table, the aggregation rule over a check rollup, and the approval test.

use vstd::prelude::*;
use crate::text::str_eq;

verus! {

/// State a single CI check run resolves to.
#[derive(Clone, Copy, Debug, PartialEq, Eq, Structural)]
pub enum CiState {
    /// The run completed successfully (or was skipped / neutral).
    Success,
    /// The run has not completed yet.
    Incomplete,
    /// The run completed unsuccessfully, or reported an unrecognized
    /// status/conclusion pair.
    Fail,
}

/// A CI run reported by the hosting platform.
#[derive(Debug, PartialEq, Eq)]
pub struct CheckRun {
    pub name: String,
    pub workflow_name: String,
    pub status: Option<String>,
    pub conclusion: String,
}

/// Mathematical model of a [`CheckRun`].
pub struct CheckRunV {
    pub name: Seq<char>,
    pub workflow_name: Seq<char>,
    pub status: Option<Seq<char>>,
    pub conclusion: Seq<char>,
}

impl View for CheckRun {
    type V = CheckRunV;

    open spec fn view(&self) -> CheckRunV {
        CheckRunV {
            name: self.name@,
            workflow_name: self.workflow_name@,
            status: match self.status {
                Some(s) => Some(s@),
                None => None,
            },
            conclusion: self.conclusion@,
        }
    }
}

/// One entry of a status rollup: either a CI run or a legacy status context,
/// which carries nothing the evaluation needs and is always excluded from it.
#[derive(Debug, PartialEq, Eq)]
pub enum StatusCheck {
    CheckRun(CheckRun),
    StatusContext,
}

/// Mathematical model of a [`StatusCheck`].
pub enum StatusCheckV {
    CheckRun(CheckRunV),
    StatusContext,
}

impl View for StatusCheck {
    type V = StatusCheckV;

    open spec fn view(&self) -> StatusCheckV {
        match self {
            StatusCheck::CheckRun(r) => StatusCheckV::CheckRun(r@),
            StatusCheck::StatusContext => StatusCheckV::StatusContext,
        }
    }
}

/// A snapshot of a pull request's review decision and check rollup.
#[derive(Debug, PartialEq, Eq)]
pub struct Status {
    pub base_ref_name: String,
    pub review_decision: String,
    pub status_check_rollup: Vec<StatusCheck>,
}

/// Mathematical model of a [`Status`].
pub struct StatusV {
    pub base_ref_name: Seq<char>,
    pub review_decision: Seq<char>,
    pub status_check_rollup: Seq<StatusCheckV>,
}

impl View for Status {
    type V = StatusV;

    open spec fn view(&self) -> StatusV {
        StatusV {
            base_ref_name: self.base_ref_name@,
            review_decision: self.review_decision@,
            status_check_rollup: self.status_check_rollup@.map_values(|c: StatusCheck| c@),
        }
    }
}

/// The status under which a completed run counts, defaulting an absent status
/// to the empty string as the platform's payload does.
pub open spec fn status_or_empty(c: CheckRunV) -> Seq<char> {
    match c.status {
        Some(s) => s,
        None => Seq::<char>::empty(),
    }
}

/// Whether the (status, conclusion) pair is one the classification table
/// recognizes; an unrecognized pair still classifies as [`CiState::Fail`],
/// but a driver may want to log it rather than drop it silently.
pub open spec fn spec_recognized(c: CheckRunV) -> bool {
    ||| (status_or_empty(c) == "COMPLETED"@ && (c.conclusion == "SUCCESS"@ || c.conclusion
        == "SKIPPED"@ || c.conclusion == "NEUTRAL"@ || c.conclusion == "FAILURE"@ || c.conclusion
        == "CANCELLED"@ || c.conclusion == "TIMED_OUT"@ || c.conclusion == "ACTION_REQUIRED"@))
    ||| ((status_or_empty(c) == "QUEUED"@ || status_or_empty(c) == "IN_PROGRESS"@
        || status_or_empty(c) == "WAITING"@ || status_or_empty(c) == "REQUESTED"@
        || status_or_empty(c) == "PENDING"@) && c.conclusion == ""@)
}

/// Per-run state derivation: completed with a passing conclusion is
/// `Success`, a pending status with an empty conclusion is `Incomplete`, and
/// everything else — completed with a failing conclusion, or any pair outside
/// the table — is `Fail`.
pub open spec fn spec_run_state(c: CheckRunV) -> CiState {
    if status_or_empty(c) == "COMPLETED"@ && (c.conclusion == "SUCCESS"@ || c.conclusion
        == "SKIPPED"@ || c.conclusion == "NEUTRAL"@) {
        CiState::Success
    } else if (status_or_empty(c) == "QUEUED"@ || status_or_empty(c) == "IN_PROGRESS"@
        || status_or_empty(c) == "WAITING"@ || status_or_empty(c) == "REQUESTED"@
        || status_or_empty(c) == "PENDING"@) && c.conclusion == ""@ {
        CiState::Incomplete
    } else {
        CiState::Fail
    }
}

/// Whether a run counts as successful: its derived state is `Success`.
/// This is the one notion of success the failure report filters on — a run
/// it excludes is exactly one whose resolved state is `Success`.
pub open spec fn spec_is_successy(c: CheckRunV) -> bool {
    spec_run_state(c) == CiState::Success
}

/// Whether a rollup entry is a check run that classifies to `s`.
pub open spec fn is_run_in_state(c: StatusCheckV, s: CiState) -> bool {
    c matches StatusCheckV::CheckRun(r) && spec_run_state(r) == s
}

/// Aggregation over a rollup, excluding status contexts entirely: any failed
/// run makes the aggregate `Fail`; otherwise any incomplete run makes it
/// `Incomplete`; otherwise — including an empty rollup — it is `Success`.
pub open spec fn aggregate_ci_state(checks: Seq<StatusCheckV>) -> CiState {
    if exists|i: int|
        0 <= i < checks.len() && is_run_in_state(#[trigger] checks[i], CiState::Fail) {
        CiState::Fail
    } else if exists|i: int|
        0 <= i < checks.len() && is_run_in_state(#[trigger] checks[i], CiState::Incomplete) {
        CiState::Incomplete
    } else {
        CiState::Success
    }
}

/// Whether the review decision grants the approval gate.
pub open spec fn spec_is_approved(s: StatusV) -> bool {
    s.review_decision == "APPROVED"@
}

/// A non-successful run as the failure report presents it.
#[derive(Debug, PartialEq, Eq)]
pub struct CheckFailure {
    pub workflow_name: String,
    pub name: String,
    pub state: CiState,
}

/// Mathematical model of a [`CheckFailure`].
pub struct CheckFailureV {
    pub workflow_name: Seq<char>,
    pub name: Seq<char>,
    pub state: CiState,
}

impl View for CheckFailure {
    type V = CheckFailureV;

    open spec fn view(&self) -> CheckFailureV {
        CheckFailureV {
            workflow_name: self.workflow_name@,
            name: self.name@,
            state: self.state,
        }
    }
}

/// The failure report of a rollup: every check run whose resolved state is
/// not `Success`, in rollup order, with that state.
pub open spec fn failing_of(checks: Seq<StatusCheckV>) -> Seq<CheckFailureV>
    decreases checks.len(),
{
    if checks.len() == 0 {
        Seq::empty()
    } else {
        let rest = failing_of(checks.drop_last());
        match checks.last() {
            StatusCheckV::CheckRun(r) => if !spec_is_successy(r) {
                rest.push(
                    CheckFailureV {
                        workflow_name: r.workflow_name,
                        name: r.name,
                        state: spec_run_state(r),
                    },
                )
            } else {
                rest
            },
            StatusCheckV::StatusContext => rest,
        }
    }
}

impl CheckRun {
    /// Decides whether the run's status is a defaulted empty string or the
    /// given word.
    fn status_is(&self, word: &str) -> (r: bool)
        ensures
            r == (status_or_empty(self@) == word@),
    {
        match &self.status {
            Some(s) => str_eq(s.as_str(), word),
            None => {
                let r = str_eq("", word);
                proof {
                    reveal_strlit("");
                    assert(""@ =~= Seq::<char>::empty());
                }
                r
            },
        }
    }

    /// Whether the run counts as successful: its resolved state is
    /// `Success`. The failure report lists exactly the runs for which this
    /// is false.
    pub fn is_successy(&self) -> (r: bool)
        ensures
            r == spec_is_successy(self@),
    {
        let state = self.state();
        state == CiState::Success
    }

    /// Resolves the run's (status, conclusion) pair per the classification
    /// table.
    pub fn state(&self) -> (r: CiState)
        ensures
            r == spec_run_state(self@),
    {
        let conclusion = self.conclusion.as_str();
        if self.status_is("COMPLETED") && (str_eq(conclusion, "SUCCESS") || str_eq(
            conclusion,
            "SKIPPED",
        ) || str_eq(conclusion, "NEUTRAL")) {
            CiState::Success
        } else if (self.status_is("QUEUED") || self.status_is("IN_PROGRESS") || self.status_is(
            "WAITING",
        ) || self.status_is("REQUESTED") || self.status_is("PENDING")) && str_eq(conclusion, "") {
            CiState::Incomplete
        } else {
            CiState::Fail
        }
    }

    /// Whether the classification table recognizes the run's pair; an
    /// unrecognized pair resolves to `Fail` and deserves a log line.
    pub fn recognized(&self) -> (r: bool)
        ensures
            r == spec_recognized(self@),
    {
        let conclusion = self.conclusion.as_str();
        let completed_arm = self.status_is("COMPLETED") && (str_eq(conclusion, "SUCCESS")
            || str_eq(conclusion, "SKIPPED") || str_eq(conclusion, "NEUTRAL") || str_eq(
            conclusion,
            "FAILURE",
        ) || str_eq(conclusion, "CANCELLED") || str_eq(conclusion, "TIMED_OUT") || str_eq(
            conclusion,
            "ACTION_REQUIRED",
        ));
        let pending_arm = (self.status_is("QUEUED") || self.status_is("IN_PROGRESS")
            || self.status_is("WAITING") || self.status_is("REQUESTED") || self.status_is(
            "PENDING",
        )) && str_eq(conclusion, "");
        completed_arm || pending_arm
    }
}

impl StatusCheck {
    /// The check run behind this entry, if it is one.
    pub fn as_check_run(&self) -> (r: Option<&CheckRun>)
        ensures
            match r {
                Some(c) => self@ == StatusCheckV::CheckRun(c@),
                None => self@ is StatusContext,
            },
    {
        match self {
            StatusCheck::CheckRun(c) => Some(c),
            StatusCheck::StatusContext => None,
        }
    }
}

impl Status {
    /// Whether the review decision is exactly `APPROVED`.
    pub fn is_approved(&self) -> (r: bool)
        ensures
            r == spec_is_approved(self@),
    {
        str_eq(self.review_decision.as_str(), "APPROVED")
    }

    /// Aggregates the rollup's check runs into one CI state.
    pub fn ci_state(&self) -> (r: CiState)
        ensures
            r == aggregate_ci_state(self@.status_check_rollup),
    {
        let ghost checks = self@.status_check_rollup;
        let mut in_progress = false;
        let n = self.status_check_rollup.len();
        let mut i: usize = 0;
        while i < n
            invariant
                n == self.status_check_rollup.len(),
                i <= n,
                checks == self@.status_check_rollup,
                checks.len() == n,
                forall|j: int| 0 <= j < n ==> checks[j] == #[trigger] self.status_check_rollup@[j]@,
                forall|j: int| 0 <= j < i ==> !is_run_in_state(#[trigger] checks[j], CiState::Fail),
                in_progress == exists|j: int|
                    0 <= j < i && is_run_in_state(#[trigger] checks[j], CiState::Incomplete),
            decreases n - i,
        {
            match self.status_check_rollup[i].as_check_run() {
                Some(run) => {
                    let st = run.state();
                    if st == CiState::Fail {
                        assert(is_run_in_state(checks[i as int], CiState::Fail));
                        return CiState::Fail;
                    }
                    if st == CiState::Incomplete {
                        assert(is_run_in_state(checks[i as int], CiState::Incomplete));
                        in_progress = true;
                    }
                },
                None => {},
            }
            i = i + 1;
        }
        if in_progress {
            CiState::Incomplete
        } else {
            CiState::Success
        }
    }

    /// Collects the failure report: every run whose resolved state is not
    /// `Success`, with that state, in rollup order.
    pub fn failing_checks(&self) -> (r: Vec<CheckFailure>)
        ensures
            r@.map_values(|f: CheckFailure| f@) == failing_of(self@.status_check_rollup),
    {
        let ghost checks = self@.status_check_rollup;
        let mut out: Vec<CheckFailure> = Vec::new();
        let n = self.status_check_rollup.len();
        let mut i: usize = 0;
        while i < n
            invariant
                n == self.status_check_rollup.len(),
                i <= n,
                checks == self@.status_check_rollup,
                checks.len() == n,
                forall|j: int| 0 <= j < n ==> checks[j] == #[trigger] self.status_check_rollup@[j]@,
                out@.map_values(|f: CheckFailure| f@) == failing_of(checks.subrange(0, i as int)),
            decreases n - i,
        {
            let ghost prefix = checks.subrange(0, i as int);
            let ghost prefix1 = checks.subrange(0, i as int + 1);
            proof {
                assert(prefix1.drop_last() =~= prefix);
                assert(prefix1.last() == checks[i as int]);
            }
            match self.status_check_rollup[i].as_check_run() {
                Some(run) => {
                    if !run.is_successy() {
                        let f = CheckFailure {
                            workflow_name: run.workflow_name.clone(),
                            name: run.name.clone(),
                            state: run.state(),
                        };
                        let ghost before = out@;
                        out.push(f);
                        proof {
                            assert(out@.map_values(|g: CheckFailure| g@) =~= before.map_values(
                                |g: CheckFailure| g@,
                            ).push(f@));
                        }
                    }
                },
                None => {},
            }
            i = i + 1;
        }
        proof {
            assert(checks.subrange(0, n as int) =~= checks);
        }
        out
    }
}

/// Any rollup with a failed run aggregates to `Fail`, whatever else it holds
/// and in whatever order.
pub proof fn lemma_aggregate_fail_dominates(checks: Seq<StatusCheckV>, i: int)
    requires
        0 <= i < checks.len(),
        is_run_in_state(checks[i], CiState::Fail),
    ensures
        aggregate_ci_state(checks) == CiState::Fail,
{
}

/// A rollup with no failed run but at least one incomplete run aggregates to
/// `Incomplete`.
pub proof fn lemma_aggregate_incomplete(checks: Seq<StatusCheckV>, i: int)
    requires
        forall|j: int| 0 <= j < checks.len() ==> !is_run_in_state(#[trigger] checks[j], CiState::Fail),
        0 <= i < checks.len(),
        is_run_in_state(checks[i], CiState::Incomplete),
    ensures
        aggregate_ci_state(checks) == CiState::Incomplete,
{
}

/// A rollup of status contexts alone — no check run at all — aggregates to
/// `Success`.
pub proof fn lemma_aggregate_all_contexts(checks: Seq<StatusCheckV>)
    requires
        forall|j: int| 0 <= j < checks.len() ==> #[trigger] checks[j] is StatusContext,
    ensures
        aggregate_ci_state(checks) == CiState::Success,
{
}

} // verus!
