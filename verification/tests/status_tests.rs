use ffmerge::status::{CheckRun, CiState, Status, StatusCheck};

fn s(x: &str) -> String {
    x.to_string()
}

fn run(status: Option<&str>, conclusion: &str) -> CheckRun {
    CheckRun {
        name: s("build"),
        workflow_name: s("ci"),
        status: status.map(s),
        conclusion: s(conclusion),
    }
}

fn status_of(decision: &str, rollup: Vec<StatusCheck>) -> Status {
    Status {
        base_ref_name: s("main"),
        review_decision: s(decision),
        status_check_rollup: rollup,
    }
}

#[test]
fn completed_success_classifies_success() {
    assert_eq!(run(Some("COMPLETED"), "SUCCESS").state(), CiState::Success);
    assert_eq!(run(Some("COMPLETED"), "SKIPPED").state(), CiState::Success);
    assert_eq!(run(Some("COMPLETED"), "NEUTRAL").state(), CiState::Success);
}

#[test]
fn pending_statuses_classify_incomplete() {
    for st in ["QUEUED", "IN_PROGRESS", "WAITING", "REQUESTED", "PENDING"] {
        assert_eq!(run(Some(st), "").state(), CiState::Incomplete);
    }
}

#[test]
fn completed_failures_classify_fail() {
    for c in ["FAILURE", "CANCELLED", "TIMED_OUT", "ACTION_REQUIRED"] {
        assert_eq!(run(Some("COMPLETED"), c).state(), CiState::Fail);
    }
}

#[test]
fn unrecognized_pairs_classify_fail_and_are_flagged() {
    let weird = run(Some("SOMETHING_NEW"), "WHO_KNOWS");
    assert_eq!(weird.state(), CiState::Fail);
    assert!(!weird.recognized());
    let missing = run(None, "");
    assert_eq!(missing.state(), CiState::Fail);
    assert!(!missing.recognized());
    assert!(run(Some("COMPLETED"), "SUCCESS").recognized());
    assert!(run(Some("QUEUED"), "").recognized());
}

#[test]
fn pending_with_nonempty_conclusion_classifies_fail() {
    assert_eq!(run(Some("QUEUED"), "SUCCESS").state(), CiState::Fail);
}

#[test]
fn is_successy_follows_the_derived_state() {
    let neutral = run(Some("COMPLETED"), "NEUTRAL");
    assert_eq!(neutral.state(), CiState::Success);
    assert!(neutral.is_successy());
    assert!(run(Some("COMPLETED"), "SUCCESS").is_successy());
    assert!(run(Some("COMPLETED"), "SKIPPED").is_successy());
    assert!(!run(Some("COMPLETED"), "FAILURE").is_successy());
    assert!(!run(Some("QUEUED"), "").is_successy());
    assert!(!run(None, "SUCCESS").is_successy());
}

#[test]
fn aggregate_fail_dominates() {
    let st = status_of(
        "APPROVED",
        vec![
            StatusCheck::CheckRun(run(Some("COMPLETED"), "SUCCESS")),
            StatusCheck::CheckRun(run(Some("QUEUED"), "")),
            StatusCheck::CheckRun(run(Some("COMPLETED"), "FAILURE")),
            StatusCheck::StatusContext,
        ],
    );
    assert_eq!(st.ci_state(), CiState::Fail);
}

#[test]
fn aggregate_incomplete_without_fail() {
    let st = status_of(
        "APPROVED",
        vec![
            StatusCheck::CheckRun(run(Some("COMPLETED"), "SUCCESS")),
            StatusCheck::CheckRun(run(Some("IN_PROGRESS"), "")),
        ],
    );
    assert_eq!(st.ci_state(), CiState::Incomplete);
}

#[test]
fn aggregate_all_contexts_is_success() {
    let st = status_of(
        "APPROVED",
        vec![StatusCheck::StatusContext, StatusCheck::StatusContext],
    );
    assert_eq!(st.ci_state(), CiState::Success);
}

#[test]
fn aggregate_empty_rollup_is_success() {
    let st = status_of("APPROVED", vec![]);
    assert_eq!(st.ci_state(), CiState::Success);
}

#[test]
fn aggregate_all_success_is_success() {
    let st = status_of(
        "APPROVED",
        vec![
            StatusCheck::CheckRun(run(Some("COMPLETED"), "SUCCESS")),
            StatusCheck::CheckRun(run(Some("COMPLETED"), "SKIPPED")),
        ],
    );
    assert_eq!(st.ci_state(), CiState::Success);
}

#[test]
fn is_approved_requires_exact_word() {
    assert!(status_of("APPROVED", vec![]).is_approved());
    assert!(!status_of("REVIEW_REQUIRED", vec![]).is_approved());
    assert!(!status_of("CHANGES_REQUESTED", vec![]).is_approved());
    assert!(!status_of("", vec![]).is_approved());
    assert!(!status_of("approved", vec![]).is_approved());
}

#[test]
fn failing_checks_lists_non_successful_in_order() {
    let mut bad = run(Some("COMPLETED"), "FAILURE");
    bad.name = s("unit");
    let mut pending = run(Some("QUEUED"), "");
    pending.name = s("lint");
    let st = status_of(
        "APPROVED",
        vec![
            StatusCheck::CheckRun(run(Some("COMPLETED"), "SUCCESS")),
            StatusCheck::CheckRun(bad),
            StatusCheck::StatusContext,
            StatusCheck::CheckRun(run(Some("COMPLETED"), "NEUTRAL")),
            StatusCheck::CheckRun(pending),
        ],
    );
    // The successful runs — NEUTRAL included — are not in the report.
    let failing = st.failing_checks();
    assert_eq!(failing.len(), 2);
    assert_eq!(failing[0].name, "unit");
    assert_eq!(failing[0].state, CiState::Fail);
    assert_eq!(failing[1].name, "lint");
    assert_eq!(failing[1].state, CiState::Incomplete);
    assert_eq!(failing[0].line(), "ci / unit: Fail");
    assert_eq!(failing[1].line(), "ci / lint: Incomplete");
}
