use ffmerge::config::{RunConfig, SleepKind};
use ffmerge::engine::{start, step, Action, Event, State};
use ffmerge::errors::{Error, MissingField, Outcome};
use ffmerge::status::{CheckRun, CiState, Status, StatusCheck};

fn s(x: &str) -> String {
    x.to_string()
}

fn default_cfg(token: Option<&str>) -> RunConfig {
    RunConfig {
        token: token.map(s),
        ignore_ci: false,
        wait_for_ci: false,
        dry_run: false,
        retain_branch: false,
        remote: s("origin"),
        autosquash: true,
    }
}

fn green_run() -> StatusCheck {
    StatusCheck::CheckRun(CheckRun {
        name: s("build"),
        workflow_name: s("ci"),
        status: Some(s("COMPLETED")),
        conclusion: s("SUCCESS"),
    })
}

fn red_run() -> StatusCheck {
    StatusCheck::CheckRun(CheckRun {
        name: s("build"),
        workflow_name: s("ci"),
        status: Some(s("COMPLETED")),
        conclusion: s("FAILURE"),
    })
}

fn pending_run() -> StatusCheck {
    StatusCheck::CheckRun(CheckRun {
        name: s("build"),
        workflow_name: s("ci"),
        status: Some(s("IN_PROGRESS")),
        conclusion: s(""),
    })
}

fn status(decision: &str, rollup: Vec<StatusCheck>) -> Status {
    Status {
        base_ref_name: s("main"),
        review_decision: s(decision),
        status_check_rollup: rollup,
    }
}

/// Drives a fresh run through the preamble (tool checks, current branch,
/// repository metadata) up to the point where the token is resolved, and
/// returns the state and the action issued after the default branch arrived.
fn after_preamble(cfg: &RunConfig, current_branch: &str) -> (State, Action) {
    let (st, a) = start();
    assert_eq!(a, Action::CheckGitTool);
    let (st, a) = step(cfg, st, Event::ToolOk);
    assert_eq!(a, Action::CheckGhTool);
    let (st, a) = step(cfg, st, Event::ToolOk);
    assert_eq!(a, Action::ReadCurrentBranch);
    let (st, a) = step(cfg, st, Event::Output { text: s(current_branch) });
    assert_eq!(a, Action::QueryRepoView);
    let (st, a) = step(
        cfg,
        st,
        Event::RepoView { owner_login: Some(s("octo")), name: Some(s("repo")) },
    );
    assert_eq!(a, Action::QueryDefaultBranch { owner: s("octo"), name: s("repo") });
    step(cfg, st, Event::DefaultBranch { name: Some(s("main")) })
}

#[test]
fn happy_path_merges_without_force_push() {
    let cfg = default_cfg(Some("42"));
    let (st, a) = after_preamble(&cfg, "main");
    assert_eq!(a, Action::QueryPrByNumber { token: s("42") });

    // Head owner equals the repository owner: no fork, no remote binding.
    let (st, a) = step(
        &cfg,
        st,
        Event::PrView {
            head_ref: Some(s("feature")),
            head_owner: Some(s("octo")),
            head_repo: Some(s("repo")),
        },
    );
    assert_eq!(a, Action::QueryStatus { qualified_branch: s("feature") });
    assert!(matches!(
        &st,
        State::AwaitingFirstStatus { pr, binding: None } if pr.fork_owner.is_none()
    ));

    let (st, a) = step(
        &cfg,
        st,
        Event::StatusFetched { status: status("APPROVED", vec![green_run()]) },
    );
    assert_eq!(a, Action::FetchHead { remote: s("origin"), branch: s("feature") });
    let (st, a) = step(&cfg, st, Event::CommandOk);
    assert_eq!(a, Action::CheckoutLocal { branch: s("feature") });
    let (st, a) = step(&cfg, st, Event::CommandOk);
    assert_eq!(a, Action::ReadLocalSha { branch: s("feature") });
    let (st, a) = step(&cfg, st, Event::Output { text: s("abc123") });
    assert_eq!(a, Action::ReadRemoteSha { remote: s("origin"), branch: s("feature") });
    let (st, a) = step(&cfg, st, Event::Output { text: s("abc123") });
    assert_eq!(a, Action::FetchBase { remote: s("origin") });
    let (st, a) = step(&cfg, st, Event::CommandOk);
    assert_eq!(a, Action::Rebase { remote: s("origin"), base: s("main"), autosquash: true });
    let (st, a) = step(&cfg, st, Event::CommandOk);
    assert_eq!(a, Action::ReadLocalSha { branch: s("feature") });
    let (st, a) = step(&cfg, st, Event::Output { text: s("abc123") });
    assert_eq!(a, Action::ReadRemoteSha { remote: s("origin"), branch: s("feature") });
    // Tip unchanged by the rebase: no force-push.
    let (st, a) = step(&cfg, st, Event::Output { text: s("abc123") });
    assert_eq!(a, Action::CheckoutBase { base: s("main") });
    let (st, a) = step(&cfg, st, Event::CommandOk);
    assert_eq!(a, Action::MergeFastForward { branch: s("feature") });
    let (st, a) = step(&cfg, st, Event::CommandOk);
    assert_eq!(a, Action::PushBase { remote: s("origin"), base: s("main") });
    let (st, a) = step(&cfg, st, Event::CommandOk);
    assert_eq!(a, Action::DeleteBranch { branch: s("feature") });
    let (st, a) = step(&cfg, st, Event::CommandOk);
    assert_eq!(a, Action::Stop);
    assert_eq!(st, State::Done { outcome: Outcome::Success });
}

#[test]
fn rebased_tip_is_force_pushed_then_settles() {
    let cfg = default_cfg(Some("feature"));
    let (st, a) = after_preamble(&cfg, "main");
    assert_eq!(a, Action::QueryStatus { qualified_branch: s("feature") });
    let (st, _) = step(
        &cfg,
        st,
        Event::StatusFetched { status: status("APPROVED", vec![green_run()]) },
    );
    let (st, _) = step(&cfg, st, Event::CommandOk); // fetched head
    let (st, _) = step(&cfg, st, Event::CommandOk); // checked out local
    let (st, _) = step(&cfg, st, Event::Output { text: s("abc123") });
    let (st, _) = step(&cfg, st, Event::Output { text: s("abc123") });
    let (st, _) = step(&cfg, st, Event::CommandOk); // fetched base
    let (st, _) = step(&cfg, st, Event::CommandOk); // rebased
    let (st, _) = step(&cfg, st, Event::Output { text: s("def456") });
    // Tip moved: force-push, then the settling pause.
    let (st, a) = step(&cfg, st, Event::Output { text: s("abc123") });
    assert_eq!(a, Action::ForcePush { remote: s("origin"), branch: s("feature") });
    let (st, a) = step(&cfg, st, Event::CommandOk);
    assert_eq!(a, Action::Sleep { kind: SleepKind::AfterRebasePush });
    let (_, a) = step(&cfg, st, Event::CommandOk);
    assert_eq!(a, Action::CheckoutBase { base: s("main") });
}

#[test]
fn unapproved_review_fails_before_any_git_mutation() {
    let cfg = default_cfg(Some("42"));
    let (st, _) = after_preamble(&cfg, "main");
    let (st, _) = step(
        &cfg,
        st,
        Event::PrView {
            head_ref: Some(s("feature")),
            head_owner: Some(s("octo")),
            head_repo: Some(s("repo")),
        },
    );
    let (st, a) = step(
        &cfg,
        st,
        Event::StatusFetched { status: status("REVIEW_REQUIRED", vec![green_run()]) },
    );
    assert_eq!(a, Action::Stop);
    match st {
        State::Done { outcome: Outcome::Failure(e) } => {
            let msg = e.message();
            assert!(msg.contains("feature"));
            assert!(msg.contains("has not been approved"));
        },
        other => panic!("unexpected terminal state: {:?}", other),
    }
}

#[test]
fn failing_ci_reports_every_bad_check() {
    let cfg = default_cfg(Some("feature"));
    let (st, _) = after_preamble(&cfg, "main");
    let (st, a) = step(
        &cfg,
        st,
        Event::StatusFetched {
            status: status("APPROVED", vec![green_run(), red_run(), pending_run()]),
        },
    );
    assert_eq!(a, Action::Stop);
    match st {
        State::Done { outcome: Outcome::Failure(Error::CiFailed { failing }) } => {
            assert_eq!(failing.len(), 2);
            assert_eq!(failing[0].state, CiState::Fail);
            assert_eq!(failing[1].state, CiState::Incomplete);
        },
        other => panic!("unexpected terminal state: {:?}", other),
    }
}

#[test]
fn ignore_ci_skips_the_gate() {
    let mut cfg = default_cfg(Some("feature"));
    cfg.ignore_ci = true;
    let (st, _) = after_preamble(&cfg, "main");
    let (_, a) = step(
        &cfg,
        st,
        Event::StatusFetched { status: status("APPROVED", vec![red_run()]) },
    );
    assert_eq!(a, Action::FetchHead { remote: s("origin"), branch: s("feature") });
}

#[test]
fn wait_for_ci_polls_until_settled() {
    let mut cfg = default_cfg(Some("feature"));
    cfg.wait_for_ci = true;
    let (st, _) = after_preamble(&cfg, "main");
    let (st, a) = step(
        &cfg,
        st,
        Event::StatusFetched { status: status("APPROVED", vec![pending_run()]) },
    );
    assert_eq!(a, Action::Sleep { kind: SleepKind::CiPoll });
    let (st, a) = step(&cfg, st, Event::CommandOk);
    assert_eq!(a, Action::QueryStatus { qualified_branch: s("feature") });
    let (st, a) = step(
        &cfg,
        st,
        Event::StatusFetched { status: status("APPROVED", vec![pending_run()]) },
    );
    assert_eq!(a, Action::Sleep { kind: SleepKind::CiPoll });
    let (st, a) = step(&cfg, st, Event::CommandOk);
    assert_eq!(a, Action::QueryStatus { qualified_branch: s("feature") });
    let (_, a) = step(
        &cfg,
        st,
        Event::StatusFetched { status: status("APPROVED", vec![green_run()]) },
    );
    assert_eq!(a, Action::FetchHead { remote: s("origin"), branch: s("feature") });
}

#[test]
fn dry_run_stops_after_gates_with_success() {
    let mut cfg = default_cfg(Some("feature"));
    cfg.dry_run = true;
    let (st, _) = after_preamble(&cfg, "main");
    let (st, a) = step(
        &cfg,
        st,
        Event::StatusFetched { status: status("APPROVED", vec![green_run()]) },
    );
    assert_eq!(a, Action::Stop);
    assert_eq!(st, State::Done { outcome: Outcome::Success });
}

#[test]
fn diverged_branch_stops_before_rebase() {
    let cfg = default_cfg(Some("feature"));
    let (st, _) = after_preamble(&cfg, "main");
    let (st, _) = step(
        &cfg,
        st,
        Event::StatusFetched { status: status("APPROVED", vec![green_run()]) },
    );
    let (st, _) = step(&cfg, st, Event::CommandOk); // fetched head
    let (st, _) = step(&cfg, st, Event::CommandOk); // checked out local
    let (st, _) = step(&cfg, st, Event::Output { text: s("abc123") });
    let (st, a) = step(&cfg, st, Event::Output { text: s("fff999") });
    assert_eq!(a, Action::Stop);
    match st {
        State::Done { outcome: Outcome::Failure(e) } => {
            assert_eq!(
                e.message(),
                "local branch feature differs from remote branch origin/feature"
            );
        },
        other => panic!("unexpected terminal state: {:?}", other),
    }
}

#[test]
fn conflicting_rebase_is_aborted_then_reported() {
    let cfg = default_cfg(Some("feature"));
    let (st, _) = after_preamble(&cfg, "main");
    let (st, _) = step(
        &cfg,
        st,
        Event::StatusFetched { status: status("APPROVED", vec![green_run()]) },
    );
    let (st, _) = step(&cfg, st, Event::CommandOk);
    let (st, _) = step(&cfg, st, Event::CommandOk);
    let (st, _) = step(&cfg, st, Event::Output { text: s("abc123") });
    let (st, _) = step(&cfg, st, Event::Output { text: s("abc123") });
    let (st, a) = step(&cfg, st, Event::CommandOk); // fetched base
    assert_eq!(a, Action::Rebase { remote: s("origin"), base: s("main"), autosquash: true });
    let (st, a) = step(&cfg, st, Event::CommandFailed);
    assert_eq!(a, Action::AbortRebase);
    let (st, a) = step(&cfg, st, Event::CommandOk);
    assert_eq!(a, Action::Stop);
    match st {
        State::Done { outcome: Outcome::Failure(e) } => {
            let msg = e.message();
            assert!(msg.contains("did not cleanly rebase"));
            assert!(msg.contains("feature"));
        },
        other => panic!("unexpected terminal state: {:?}", other),
    }
}

#[test]
fn base_push_retries_once_then_succeeds() {
    let cfg = default_cfg(Some("feature"));
    let (st, _) = after_preamble(&cfg, "main");
    let (st, _) = step(
        &cfg,
        st,
        Event::StatusFetched { status: status("APPROVED", vec![green_run()]) },
    );
    let (st, _) = step(&cfg, st, Event::CommandOk);
    let (st, _) = step(&cfg, st, Event::CommandOk);
    let (st, _) = step(&cfg, st, Event::Output { text: s("abc123") });
    let (st, _) = step(&cfg, st, Event::Output { text: s("abc123") });
    let (st, _) = step(&cfg, st, Event::CommandOk); // fetched base
    let (st, _) = step(&cfg, st, Event::CommandOk); // rebased
    let (st, _) = step(&cfg, st, Event::Output { text: s("abc123") });
    let (st, _) = step(&cfg, st, Event::Output { text: s("abc123") });
    let (st, _) = step(&cfg, st, Event::CommandOk); // checked out base
    let (st, a) = step(&cfg, st, Event::CommandOk); // merged
    assert_eq!(a, Action::PushBase { remote: s("origin"), base: s("main") });
    let (st, a) = step(&cfg, st, Event::CommandFailed);
    assert_eq!(a, Action::Sleep { kind: SleepKind::PushRetry });
    let (st, a) = step(&cfg, st, Event::CommandOk);
    assert_eq!(a, Action::PushBase { remote: s("origin"), base: s("main") });
    let (st, a) = step(&cfg, st, Event::CommandOk);
    assert_eq!(a, Action::DeleteBranch { branch: s("feature") });
    let (st, a) = step(&cfg, st, Event::CommandOk);
    assert_eq!(a, Action::Stop);
    assert_eq!(st, State::Done { outcome: Outcome::Success });
}

#[test]
fn base_push_failing_twice_is_fatal() {
    let cfg = default_cfg(Some("feature"));
    let (st, _) = after_preamble(&cfg, "main");
    let (st, _) = step(
        &cfg,
        st,
        Event::StatusFetched { status: status("APPROVED", vec![green_run()]) },
    );
    let (st, _) = step(&cfg, st, Event::CommandOk);
    let (st, _) = step(&cfg, st, Event::CommandOk);
    let (st, _) = step(&cfg, st, Event::Output { text: s("abc123") });
    let (st, _) = step(&cfg, st, Event::Output { text: s("abc123") });
    let (st, _) = step(&cfg, st, Event::CommandOk);
    let (st, _) = step(&cfg, st, Event::CommandOk);
    let (st, _) = step(&cfg, st, Event::Output { text: s("abc123") });
    let (st, _) = step(&cfg, st, Event::Output { text: s("abc123") });
    let (st, _) = step(&cfg, st, Event::CommandOk);
    let (st, _) = step(&cfg, st, Event::CommandOk);
    let (st, _) = step(&cfg, st, Event::CommandFailed);
    let (st, _) = step(&cfg, st, Event::CommandOk); // slept
    let (st, a) = step(&cfg, st, Event::CommandFailed);
    assert_eq!(a, Action::Stop);
    assert!(matches!(
        st,
        State::Done { outcome: Outcome::Failure(Error::PushFailed { .. }) }
    ));
}

#[test]
fn fork_token_binds_and_releases_the_remote() {
    let cfg = default_cfg(Some("alice:feature-x"));
    let (st, a) = after_preamble(&cfg, "main");
    assert_eq!(a, Action::QueryPrHeadRepo { token: s("alice:feature-x") });
    let (st, a) = step(&cfg, st, Event::HeadRepo { name: Some(s("repo")) });
    assert_eq!(a, Action::QueryForkUrl { owner: s("alice"), repo: s("repo") });
    let (st, a) = step(&cfg, st, Event::ForkUrl { url: Some(s("ssh://fork/repo")) });
    assert_eq!(a, Action::AddRemote { name: s("alice"), url: s("ssh://fork/repo") });
    let (st, a) = step(&cfg, st, Event::CommandOk);
    assert_eq!(a, Action::QueryStatus { qualified_branch: s("alice:feature-x") });
    // The run fails at the approval gate; the binding is removed regardless.
    let (st, a) = step(
        &cfg,
        st,
        Event::StatusFetched { status: status("REVIEW_REQUIRED", vec![]) },
    );
    assert_eq!(a, Action::RemoveRemote { name: s("alice") });
    let (st, a) = step(&cfg, st, Event::CommandOk);
    assert_eq!(a, Action::Stop);
    assert!(matches!(
        st,
        State::Done { outcome: Outcome::Failure(Error::NotApproved { .. }) }
    ));
}

#[test]
fn fork_pr_number_fetches_from_fork_remote() {
    let cfg = default_cfg(Some("42"));
    let (st, _) = after_preamble(&cfg, "main");
    let (st, a) = step(
        &cfg,
        st,
        Event::PrView {
            head_ref: Some(s("feature-x")),
            head_owner: Some(s("alice")),
            head_repo: Some(s("forked")),
        },
    );
    assert_eq!(a, Action::QueryForkUrl { owner: s("alice"), repo: s("forked") });
    let (st, _) = step(&cfg, st, Event::ForkUrl { url: Some(s("ssh://fork/forked")) });
    let (st, a) = step(&cfg, st, Event::CommandOk);
    assert_eq!(a, Action::QueryStatus { qualified_branch: s("alice:feature-x") });
    let (st, a) = step(
        &cfg,
        st,
        Event::StatusFetched { status: status("APPROVED", vec![green_run()]) },
    );
    assert_eq!(a, Action::FetchHead { remote: s("alice"), branch: s("feature-x") });
    // A dirty local checkout falls back to a tracking checkout of the fork.
    let (st, a) = step(&cfg, st, Event::CommandOk);
    assert_eq!(a, Action::CheckoutLocal { branch: s("feature-x") });
    let (_, a) = step(&cfg, st, Event::CommandFailed);
    assert_eq!(a, Action::CheckoutTracking { branch: s("feature-x"), remote: s("alice") });
}

#[test]
fn no_token_on_default_branch_is_a_usage_error() {
    let cfg = default_cfg(None);
    let (st, a) = after_preamble(&cfg, "main");
    assert_eq!(a, Action::Stop);
    assert_eq!(st, State::Done { outcome: Outcome::Failure(Error::Usage) });
}

#[test]
fn no_token_off_default_branch_uses_current_branch() {
    let cfg = default_cfg(None);
    let (_, a) = after_preamble(&cfg, "feature");
    assert_eq!(a, Action::QueryStatus { qualified_branch: s("feature") });
}

#[test]
fn retain_branch_skips_deletion() {
    let mut cfg = default_cfg(Some("feature"));
    cfg.retain_branch = true;
    let (st, _) = after_preamble(&cfg, "main");
    let (st, _) = step(
        &cfg,
        st,
        Event::StatusFetched { status: status("APPROVED", vec![green_run()]) },
    );
    let (st, _) = step(&cfg, st, Event::CommandOk);
    let (st, _) = step(&cfg, st, Event::CommandOk);
    let (st, _) = step(&cfg, st, Event::Output { text: s("abc123") });
    let (st, _) = step(&cfg, st, Event::Output { text: s("abc123") });
    let (st, _) = step(&cfg, st, Event::CommandOk);
    let (st, _) = step(&cfg, st, Event::CommandOk);
    let (st, _) = step(&cfg, st, Event::Output { text: s("abc123") });
    let (st, _) = step(&cfg, st, Event::Output { text: s("abc123") });
    let (st, _) = step(&cfg, st, Event::CommandOk);
    let (st, _) = step(&cfg, st, Event::CommandOk);
    let (st, a) = step(&cfg, st, Event::CommandOk); // pushed base
    assert_eq!(a, Action::Stop);
    assert_eq!(st, State::Done { outcome: Outcome::Success });
}

#[test]
fn missing_tool_is_fatal() {
    let cfg = default_cfg(Some("42"));
    let (st, _) = start();
    let (st, a) = step(&cfg, st, Event::ToolMissing);
    assert_eq!(a, Action::Stop);
    assert_eq!(
        st,
        State::Done { outcome: Outcome::Failure(Error::ToolMissing { git: true }) }
    );
}

#[test]
fn missing_response_field_is_a_protocol_error() {
    let cfg = default_cfg(Some("42"));
    let (st, a) = start();
    assert_eq!(a, Action::CheckGitTool);
    let (st, _) = step(&cfg, st, Event::ToolOk);
    let (st, _) = step(&cfg, st, Event::ToolOk);
    let (st, _) = step(&cfg, st, Event::Output { text: s("main") });
    let (st, a) = step(&cfg, st, Event::RepoView { owner_login: None, name: Some(s("repo")) });
    assert_eq!(a, Action::Stop);
    assert_eq!(
        st,
        State::Done {
            outcome: Outcome::Failure(Error::Protocol { field: MissingField::OwnerLogin }),
        }
    );
}

#[test]
fn no_autosquash_reaches_the_rebase_invocation() {
    let mut cfg = default_cfg(Some("feature"));
    cfg.autosquash = false;
    let (st, _) = after_preamble(&cfg, "main");
    let (st, _) = step(
        &cfg,
        st,
        Event::StatusFetched { status: status("APPROVED", vec![green_run()]) },
    );
    let (st, _) = step(&cfg, st, Event::CommandOk);
    let (st, _) = step(&cfg, st, Event::CommandOk);
    let (st, _) = step(&cfg, st, Event::Output { text: s("abc123") });
    let (st, _) = step(&cfg, st, Event::Output { text: s("abc123") });
    let (_, a) = step(&cfg, st, Event::CommandOk);
    assert_eq!(a, Action::Rebase { remote: s("origin"), base: s("main"), autosquash: false });
}

#[test]
fn dry_run_on_fork_still_releases_the_remote() {
    let mut cfg = default_cfg(Some("alice:feature-x"));
    cfg.dry_run = true;
    let (st, _) = after_preamble(&cfg, "main");
    let (st, _) = step(&cfg, st, Event::HeadRepo { name: Some(s("repo")) });
    let (st, _) = step(&cfg, st, Event::ForkUrl { url: Some(s("ssh://fork/repo")) });
    let (st, a) = step(&cfg, st, Event::CommandOk); // remote added
    assert_eq!(a, Action::QueryStatus { qualified_branch: s("alice:feature-x") });
    let (st, a) = step(
        &cfg,
        st,
        Event::StatusFetched { status: status("APPROVED", vec![green_run()]) },
    );
    assert_eq!(a, Action::RemoveRemote { name: s("alice") });
    // A failing removal is swallowed: the run still ends successfully.
    let (st, a) = step(&cfg, st, Event::CommandFailed);
    assert_eq!(a, Action::Stop);
    assert_eq!(st, State::Done { outcome: Outcome::Success });
}

#[test]
fn malformed_status_payload_is_a_protocol_error() {
    let cfg = default_cfg(Some("feature"));
    let (st, _) = after_preamble(&cfg, "main");
    let (st, a) = step(&cfg, st, Event::StatusMalformed);
    assert_eq!(a, Action::Stop);
    assert_eq!(
        st,
        State::Done {
            outcome: Outcome::Failure(Error::Protocol { field: MissingField::StatusPayload }),
        }
    );
}

#[test]
fn unreachable_status_query_is_a_transport_error() {
    let cfg = default_cfg(Some("feature"));
    let (st, _) = after_preamble(&cfg, "main");
    let (st, a) = step(&cfg, st, Event::CommandFailed);
    assert_eq!(a, Action::Stop);
    assert!(matches!(
        st,
        State::Done { outcome: Outcome::Failure(Error::Transport { .. }) }
    ));
}

#[test]
fn refused_fast_forward_is_fatal() {
    let cfg = default_cfg(Some("feature"));
    let (st, _) = after_preamble(&cfg, "main");
    let (st, _) = step(
        &cfg,
        st,
        Event::StatusFetched { status: status("APPROVED", vec![green_run()]) },
    );
    let (st, _) = step(&cfg, st, Event::CommandOk);
    let (st, _) = step(&cfg, st, Event::CommandOk);
    let (st, _) = step(&cfg, st, Event::Output { text: s("abc123") });
    let (st, _) = step(&cfg, st, Event::Output { text: s("abc123") });
    let (st, _) = step(&cfg, st, Event::CommandOk); // fetched base
    let (st, _) = step(&cfg, st, Event::CommandOk); // rebased
    let (st, _) = step(&cfg, st, Event::Output { text: s("abc123") });
    let (st, _) = step(&cfg, st, Event::Output { text: s("abc123") });
    let (st, a) = step(&cfg, st, Event::CommandOk); // checked out base
    assert_eq!(a, Action::MergeFastForward { branch: s("feature") });
    let (st, a) = step(&cfg, st, Event::CommandFailed);
    assert_eq!(a, Action::Stop);
    match st {
        State::Done { outcome: Outcome::Failure(Error::MergeNotFastForward { branch, base }) } => {
            assert_eq!(branch, "feature");
            assert_eq!(base, "main");
        }
        other => panic!("unexpected terminal state: {:?}", other),
    }
}
