//! Mathematical model of the merge orchestration: the states of the
//! protocol, the external commands it issues, the answers it consumes, and
//! the total transition relation between them.
//!
//! The executable mirror in [`crate::engine`] is proved to refine this
//! model step by step; the trace lemmas in [`crate::run`] are stated over
//! it.

use vstd::prelude::*;
use crate::config::{RunConfigV, SleepKind};
use crate::errors::{ApiOp, ErrorV, GitOp, MissingField, OutcomeV};
use crate::reference::{head_remote_of, qualified_of, PrRefV};
use crate::status::{aggregate_ci_state, failing_of, spec_is_approved, CiState, StatusV};
use crate::text::{first_colon_of, has_colon, is_u64_numeral};

verus! {

/// A command the engine asks the driver to perform.
pub enum ActionV {
    /// Check that the git client is installed.
    CheckGitTool,
    /// Check that the platform CLI is installed.
    CheckGhTool,
    /// Read the name of the checked-out branch.
    ReadCurrentBranch,
    /// Query the current repository's owner login and name.
    QueryRepoView,
    /// Query the repository's default branch.
    QueryDefaultBranch { owner: Seq<char>, name: Seq<char> },
    /// Query a pull request by number: head branch, head owner, head repo.
    QueryPrByNumber { token: Seq<char> },
    /// Query a pull request by `owner:branch` token: head repository name.
    QueryPrHeadRepo { token: Seq<char> },
    /// Query a fork's fetch URL.
    QueryForkUrl { owner: Seq<char>, repo: Seq<char> },
    /// Add an ephemeral no-fetch, no-tags remote for the fork.
    AddRemote { name: Seq<char>, url: Seq<char> },
    /// Query the pull request's review/CI status snapshot.
    QueryStatus { qualified_branch: Seq<char> },
    /// Sleep for one of the configured intervals.
    Sleep { kind: SleepKind },
    /// Fetch the head branch alone, no tags, from its owning remote.
    FetchHead { remote: Seq<char>, branch: Seq<char> },
    /// Check out an existing local branch of that name.
    CheckoutLocal { branch: Seq<char> },
    /// Create a local branch tracking the remote head ref and check it out.
    CheckoutTracking { branch: Seq<char>, remote: Seq<char> },
    /// Read the tip SHA of the local branch.
    ReadLocalSha { branch: Seq<char> },
    /// Read the tip SHA of the remote tracking branch.
    ReadRemoteSha { remote: Seq<char>, branch: Seq<char> },
    /// Fetch the configured base remote.
    FetchBase { remote: Seq<char> },
    /// Rebase the local branch onto `remote/base`.
    Rebase { remote: Seq<char>, base: Seq<char>, autosquash: bool },
    /// Abort the rebase in progress, restoring the pre-rebase state.
    AbortRebase,
    /// Force-push the rebased head, with lease, to its owning remote.
    ForcePush { remote: Seq<char>, branch: Seq<char> },
    /// Check out the base branch locally.
    CheckoutBase { base: Seq<char> },
    /// Merge the head branch into the base, fast-forward only.
    MergeFastForward { branch: Seq<char> },
    /// Push the base branch to the configured remote.
    PushBase { remote: Seq<char>, base: Seq<char> },
    /// Delete the local head branch.
    DeleteBranch { branch: Seq<char> },
    /// Remove the ephemeral fork remote.
    RemoveRemote { name: Seq<char> },
    /// The run is over; the outcome is in the terminal state.
    Stop,
}

/// The driver's answer to the last action. A state interprets the answer
/// shapes it expects; any other shape counts as the command having failed.
pub enum EventV {
    /// The checked tool is present.
    ToolOk,
    /// The checked tool is absent.
    ToolMissing,
    /// A read command succeeded with this (trimmed) output.
    Output { text: Seq<char> },
    /// The command succeeded (also: the sleep elapsed).
    CommandOk,
    /// The command failed.
    CommandFailed,
    /// Answer to [`ActionV::QueryRepoView`]; a field is `None` when the
    /// response lacked it or it was malformed.
    RepoView { owner_login: Option<Seq<char>>, name: Option<Seq<char>> },
    /// Answer to [`ActionV::QueryDefaultBranch`].
    DefaultBranch { name: Option<Seq<char>> },
    /// Answer to [`ActionV::QueryPrByNumber`].
    PrView {
        head_ref: Option<Seq<char>>,
        head_owner: Option<Seq<char>>,
        head_repo: Option<Seq<char>>,
    },
    /// Answer to [`ActionV::QueryPrHeadRepo`].
    HeadRepo { name: Option<Seq<char>> },
    /// Answer to [`ActionV::QueryForkUrl`].
    ForkUrl { url: Option<Seq<char>> },
    /// Answer to [`ActionV::QueryStatus`]: the parsed snapshot.
    StatusFetched { status: StatusV },
    /// Answer to [`ActionV::QueryStatus`]: the payload did not parse.
    StatusMalformed,
}

/// What the merge phase carries: the resolved reference, the name of the
/// ephemeral fork remote when one was added, and the base branch.
pub struct MergeCtxV {
    pub pr: PrRefV,
    pub binding: Option<Seq<char>>,
    pub base: Seq<char>,
}

/// A state of the orchestration. Each state awaits the answer to exactly
/// one issued action.
pub enum StateV {
    /// Awaiting the git tool check.
    CheckingGit,
    /// Awaiting the platform CLI check.
    CheckingGh,
    /// Awaiting the current branch name.
    ReadingCurrentBranch,
    /// Awaiting the repository owner/name.
    FetchingRepoView { current_branch: Seq<char> },
    /// Awaiting the default branch.
    FetchingDefaultBranch { current_branch: Seq<char>, owner_login: Seq<char> },
    /// Awaiting the PR-by-number lookup.
    FetchingPrByNumber { owner_login: Seq<char> },
    /// Awaiting the head repository name of an `owner:branch` token.
    FetchingHeadRepo { fork_owner: Seq<char>, branch: Seq<char> },
    /// Awaiting the fork's fetch URL.
    FetchingForkUrl { fork_owner: Seq<char>, branch: Seq<char> },
    /// Awaiting the addition of the ephemeral fork remote.
    AddingRemote { fork_owner: Seq<char>, branch: Seq<char> },
    /// Awaiting the first status snapshot, against which approval is gated.
    AwaitingFirstStatus { pr: PrRefV, binding: Option<Seq<char>> },
    /// Awaiting the CI-poll sleep.
    SleepingForCi { pr: PrRefV, binding: Option<Seq<char>> },
    /// Awaiting a re-polled status snapshot.
    AwaitingPolledStatus { pr: PrRefV, binding: Option<Seq<char>> },
    /// Awaiting the fetch of the head branch.
    FetchingHead { ctx: MergeCtxV },
    /// Awaiting the checkout of an existing local branch.
    CheckingOutLocal { ctx: MergeCtxV },
    /// Awaiting the checkout of a new tracking branch.
    CheckingOutTracking { ctx: MergeCtxV },
    /// Awaiting the local tip SHA, before the rebase.
    ReadingLocalShaPre { ctx: MergeCtxV },
    /// Awaiting the remote tracking tip SHA, before the rebase.
    ReadingRemoteShaPre { ctx: MergeCtxV, local_sha: Seq<char> },
    /// Awaiting the fetch of the base remote.
    FetchingBase { ctx: MergeCtxV },
    /// Awaiting the rebase.
    Rebasing { ctx: MergeCtxV },
    /// Awaiting the abort of a failed rebase.
    AbortingRebase { ctx: MergeCtxV },
    /// Awaiting the local tip SHA, after the rebase.
    ReadingLocalShaPost { ctx: MergeCtxV },
    /// Awaiting the remote tracking tip SHA, after the rebase.
    ReadingRemoteShaPost { ctx: MergeCtxV, local_sha: Seq<char> },
    /// Awaiting the force-push of the rebased head.
    ForcePushing { ctx: MergeCtxV },
    /// Awaiting the settling pause after the force-push.
    SleepingAfterPush { ctx: MergeCtxV },
    /// Awaiting the checkout of the base branch.
    CheckingOutBase { ctx: MergeCtxV },
    /// Awaiting the fast-forward-only merge.
    Merging { ctx: MergeCtxV },
    /// Awaiting a push of the base branch; `retried` after the one retry.
    PushingBase { ctx: MergeCtxV, retried: bool },
    /// Awaiting the backoff before the push retry.
    SleepingBeforeRetry { ctx: MergeCtxV },
    /// Awaiting the deletion of the local head branch.
    DeletingBranch { binding: Option<Seq<char>> },
    /// Awaiting the removal of the ephemeral fork remote; the run's outcome
    /// is already decided and removal failures are swallowed.
    RemovingRemote { outcome: OutcomeV },
    /// The run is over.
    Done { outcome: OutcomeV },
}

/// Ends the run with a failure, releasing the ephemeral remote first when
/// one was added.
pub open spec fn fail_with(binding: Option<Seq<char>>, e: ErrorV) -> (StateV, ActionV) {
    match binding {
        Some(name) => (
            StateV::RemovingRemote { outcome: OutcomeV::Failure(e) },
            ActionV::RemoveRemote { name },
        ),
        None => (StateV::Done { outcome: OutcomeV::Failure(e) }, ActionV::Stop),
    }
}

/// Ends the run successfully, releasing the ephemeral remote first when one
/// was added.
pub open spec fn finish_success(binding: Option<Seq<char>>) -> (StateV, ActionV) {
    match binding {
        Some(name) => (
            StateV::RemovingRemote { outcome: OutcomeV::Success },
            ActionV::RemoveRemote { name },
        ),
        None => (StateV::Done { outcome: OutcomeV::Success }, ActionV::Stop),
    }
}

/// Moves to the first status query for a resolved reference.
pub open spec fn goto_first_status(pr: PrRefV, binding: Option<Seq<char>>) -> (StateV, ActionV) {
    (
        StateV::AwaitingFirstStatus { pr, binding },
        ActionV::QueryStatus { qualified_branch: qualified_of(pr) },
    )
}

/// The gates applied to a status snapshot that is past the approval gate
/// and not being waited on: require aggregate CI success unless `ignore_ci`;
/// then short-circuit under `dry_run`; else begin the git phase by fetching
/// the head branch from its owning remote.
pub open spec fn apply_gates(
    cfg: RunConfigV,
    pr: PrRefV,
    binding: Option<Seq<char>>,
    status: StatusV,
) -> (StateV, ActionV) {
    if !cfg.ignore_ci && aggregate_ci_state(status.status_check_rollup) != CiState::Success {
        fail_with(
            binding,
            ErrorV::CiFailed { failing: failing_of(status.status_check_rollup) },
        )
    } else if cfg.dry_run {
        finish_success(binding)
    } else {
        (
            StateV::FetchingHead {
                ctx: MergeCtxV { pr, binding, base: status.base_ref_name },
            },
            ActionV::FetchHead { remote: head_remote_of(pr, cfg.remote), branch: pr.branch },
        )
    }
}

/// Resolves the user token once the default branch is known: no token means
/// the current branch (an error on the default branch); a `u64` numeral is a
/// PR number to look up; a token with a colon is `owner:branch`, whose fork
/// repository must be looked up; anything else is a same-repository branch.
pub open spec fn resolve_token(
    cfg: RunConfigV,
    current_branch: Seq<char>,
    owner_login: Seq<char>,
) -> (StateV, ActionV) {
    match cfg.token {
        None => goto_first_status(PrRefV { branch: current_branch, fork_owner: None }, None),
        Some(tok) => if is_u64_numeral(tok) {
            (StateV::FetchingPrByNumber { owner_login }, ActionV::QueryPrByNumber { token: tok })
        } else if has_colon(tok) {
            (
                StateV::FetchingHeadRepo {
                    fork_owner: tok.subrange(0, first_colon_of(tok)),
                    branch: tok.subrange(first_colon_of(tok) + 1, tok.len() as int),
                },
                ActionV::QueryPrHeadRepo { token: tok },
            )
        } else {
            goto_first_status(PrRefV { branch: tok, fork_owner: None }, None)
        },
    }
}

/// The transition relation: from a state and the driver's answer to the
/// state's pending action, the next state and the next action. Total: a
/// state that receives an answer of an unexpected shape treats it as the
/// pending command having failed, and a finished run stays finished.
pub open spec fn next(cfg: RunConfigV, st: StateV, ev: EventV) -> (StateV, ActionV) {
    match st {
        StateV::CheckingGit => match ev {
            EventV::ToolOk => (StateV::CheckingGh, ActionV::CheckGhTool),
            _ => fail_with(None, ErrorV::ToolMissing { git: true }),
        },
        StateV::CheckingGh => match ev {
            EventV::ToolOk => (StateV::ReadingCurrentBranch, ActionV::ReadCurrentBranch),
            _ => fail_with(None, ErrorV::ToolMissing { git: false }),
        },
        StateV::ReadingCurrentBranch => match ev {
            EventV::Output { text } => (
                StateV::FetchingRepoView { current_branch: text },
                ActionV::QueryRepoView,
            ),
            _ => fail_with(None, ErrorV::Git { op: GitOp::CurrentBranch }),
        },
        StateV::FetchingRepoView { current_branch } => match ev {
            EventV::RepoView { owner_login, name } => match owner_login {
                None => fail_with(None, ErrorV::Protocol { field: MissingField::OwnerLogin }),
                Some(owner) => match name {
                    None => fail_with(None, ErrorV::Protocol { field: MissingField::RepoName }),
                    Some(nm) => (
                        StateV::FetchingDefaultBranch { current_branch, owner_login: owner },
                        ActionV::QueryDefaultBranch { owner, name: nm },
                    ),
                },
            },
            _ => fail_with(None, ErrorV::Transport { op: ApiOp::RepoView }),
        },
        StateV::FetchingDefaultBranch { current_branch, owner_login } => match ev {
            EventV::DefaultBranch { name } => match name {
                None => fail_with(None, ErrorV::Protocol { field: MissingField::DefaultBranch }),
                Some(default_branch) => if cfg.token is None && current_branch == default_branch {
                    fail_with(None, ErrorV::Usage)
                } else {
                    resolve_token(cfg, current_branch, owner_login)
                },
            },
            _ => fail_with(None, ErrorV::Transport { op: ApiOp::DefaultBranch }),
        },
        StateV::FetchingPrByNumber { owner_login } => match ev {
            EventV::PrView { head_ref, head_owner, head_repo } => match head_ref {
                None => fail_with(None, ErrorV::Protocol { field: MissingField::HeadRefName }),
                Some(branch) => match head_owner {
                    None => fail_with(None, ErrorV::Protocol { field: MissingField::HeadOwner }),
                    Some(owner) => match head_repo {
                        None => fail_with(
                            None,
                            ErrorV::Protocol { field: MissingField::HeadRepo },
                        ),
                        Some(repo) => if owner == owner_login {
                            goto_first_status(PrRefV { branch, fork_owner: None }, None)
                        } else {
                            (
                                StateV::FetchingForkUrl { fork_owner: owner, branch },
                                ActionV::QueryForkUrl { owner, repo },
                            )
                        },
                    },
                },
            },
            _ => fail_with(None, ErrorV::Transport { op: ApiOp::PrByNumber }),
        },
        StateV::FetchingHeadRepo { fork_owner, branch } => match ev {
            EventV::HeadRepo { name } => match name {
                None => fail_with(None, ErrorV::Protocol { field: MissingField::HeadRepo }),
                Some(repo) => (
                    StateV::FetchingForkUrl { fork_owner, branch },
                    ActionV::QueryForkUrl { owner: fork_owner, repo },
                ),
            },
            _ => fail_with(None, ErrorV::Transport { op: ApiOp::PrHeadRepo }),
        },
        StateV::FetchingForkUrl { fork_owner, branch } => match ev {
            EventV::ForkUrl { url } => match url {
                None => fail_with(None, ErrorV::Protocol { field: MissingField::ForkUrl }),
                Some(u) => (
                    StateV::AddingRemote { fork_owner, branch },
                    ActionV::AddRemote { name: fork_owner, url: u },
                ),
            },
            _ => fail_with(None, ErrorV::Transport { op: ApiOp::ForkUrl }),
        },
        StateV::AddingRemote { fork_owner, branch } => match ev {
            EventV::CommandOk => goto_first_status(
                PrRefV { branch, fork_owner: Some(fork_owner) },
                Some(fork_owner),
            ),
            _ => fail_with(None, ErrorV::Git { op: GitOp::AddRemote }),
        },
        StateV::AwaitingFirstStatus { pr, binding } => match ev {
            EventV::StatusFetched { status } => if !spec_is_approved(status) {
                fail_with(binding, ErrorV::NotApproved { branch: pr.branch })
            } else if cfg.wait_for_ci && aggregate_ci_state(status.status_check_rollup)
                == CiState::Incomplete {
                (StateV::SleepingForCi { pr, binding }, ActionV::Sleep { kind: SleepKind::CiPoll })
            } else {
                apply_gates(cfg, pr, binding, status)
            },
            EventV::StatusMalformed => fail_with(
                binding,
                ErrorV::Protocol { field: MissingField::StatusPayload },
            ),
            _ => fail_with(binding, ErrorV::Transport { op: ApiOp::Status }),
        },
        StateV::SleepingForCi { pr, binding } => (
            StateV::AwaitingPolledStatus { pr, binding },
            ActionV::QueryStatus { qualified_branch: qualified_of(pr) },
        ),
        StateV::AwaitingPolledStatus { pr, binding } => match ev {
            EventV::StatusFetched { status } => if aggregate_ci_state(status.status_check_rollup)
                == CiState::Incomplete {
                (StateV::SleepingForCi { pr, binding }, ActionV::Sleep { kind: SleepKind::CiPoll })
            } else {
                apply_gates(cfg, pr, binding, status)
            },
            EventV::StatusMalformed => fail_with(
                binding,
                ErrorV::Protocol { field: MissingField::StatusPayload },
            ),
            _ => fail_with(binding, ErrorV::Transport { op: ApiOp::Status }),
        },
        StateV::FetchingHead { ctx } => match ev {
            EventV::CommandOk => (
                StateV::CheckingOutLocal { ctx },
                ActionV::CheckoutLocal { branch: ctx.pr.branch },
            ),
            _ => fail_with(ctx.binding, ErrorV::Git { op: GitOp::FetchHead }),
        },
        StateV::CheckingOutLocal { ctx } => match ev {
            EventV::CommandOk => (
                StateV::ReadingLocalShaPre { ctx },
                ActionV::ReadLocalSha { branch: ctx.pr.branch },
            ),
            _ => (
                StateV::CheckingOutTracking { ctx },
                ActionV::CheckoutTracking {
                    branch: ctx.pr.branch,
                    remote: head_remote_of(ctx.pr, cfg.remote),
                },
            ),
        },
        StateV::CheckingOutTracking { ctx } => match ev {
            EventV::CommandOk => (
                StateV::ReadingLocalShaPre { ctx },
                ActionV::ReadLocalSha { branch: ctx.pr.branch },
            ),
            _ => fail_with(ctx.binding, ErrorV::Git { op: GitOp::Checkout }),
        },
        StateV::ReadingLocalShaPre { ctx } => match ev {
            EventV::Output { text } => (
                StateV::ReadingRemoteShaPre { ctx, local_sha: text },
                ActionV::ReadRemoteSha {
                    remote: head_remote_of(ctx.pr, cfg.remote),
                    branch: ctx.pr.branch,
                },
            ),
            _ => fail_with(ctx.binding, ErrorV::Git { op: GitOp::LocalSha }),
        },
        StateV::ReadingRemoteShaPre { ctx, local_sha } => match ev {
            EventV::Output { text } => if text == local_sha {
                (StateV::FetchingBase { ctx }, ActionV::FetchBase { remote: cfg.remote })
            } else {
                fail_with(
                    ctx.binding,
                    ErrorV::DivergedBranch {
                        branch: ctx.pr.branch,
                        remote: head_remote_of(ctx.pr, cfg.remote),
                    },
                )
            },
            _ => fail_with(ctx.binding, ErrorV::Git { op: GitOp::RemoteSha }),
        },
        StateV::FetchingBase { ctx } => match ev {
            EventV::CommandOk => (
                StateV::Rebasing { ctx },
                ActionV::Rebase {
                    remote: cfg.remote,
                    base: ctx.base,
                    autosquash: cfg.autosquash,
                },
            ),
            _ => fail_with(ctx.binding, ErrorV::Git { op: GitOp::FetchBase }),
        },
        StateV::Rebasing { ctx } => match ev {
            EventV::CommandOk => (
                StateV::ReadingLocalShaPost { ctx },
                ActionV::ReadLocalSha { branch: ctx.pr.branch },
            ),
            _ => (StateV::AbortingRebase { ctx }, ActionV::AbortRebase),
        },
        StateV::AbortingRebase { ctx } => match ev {
            EventV::CommandOk => fail_with(
                ctx.binding,
                ErrorV::RebaseConflict {
                    branch: ctx.pr.branch,
                    remote: cfg.remote,
                    base: ctx.base,
                },
            ),
            _ => fail_with(ctx.binding, ErrorV::Git { op: GitOp::AbortRebase }),
        },
        StateV::ReadingLocalShaPost { ctx } => match ev {
            EventV::Output { text } => (
                StateV::ReadingRemoteShaPost { ctx, local_sha: text },
                ActionV::ReadRemoteSha {
                    remote: head_remote_of(ctx.pr, cfg.remote),
                    branch: ctx.pr.branch,
                },
            ),
            _ => fail_with(ctx.binding, ErrorV::Git { op: GitOp::LocalSha }),
        },
        StateV::ReadingRemoteShaPost { ctx, local_sha } => match ev {
            EventV::Output { text } => if text == local_sha {
                (StateV::CheckingOutBase { ctx }, ActionV::CheckoutBase { base: ctx.base })
            } else {
                (
                    StateV::ForcePushing { ctx },
                    ActionV::ForcePush {
                        remote: head_remote_of(ctx.pr, cfg.remote),
                        branch: ctx.pr.branch,
                    },
                )
            },
            _ => fail_with(ctx.binding, ErrorV::Git { op: GitOp::RemoteSha }),
        },
        StateV::ForcePushing { ctx } => match ev {
            EventV::CommandOk => (
                StateV::SleepingAfterPush { ctx },
                ActionV::Sleep { kind: SleepKind::AfterRebasePush },
            ),
            _ => fail_with(ctx.binding, ErrorV::Git { op: GitOp::ForcePush }),
        },
        StateV::SleepingAfterPush { ctx } => (
            StateV::CheckingOutBase { ctx },
            ActionV::CheckoutBase { base: ctx.base },
        ),
        StateV::CheckingOutBase { ctx } => match ev {
            EventV::CommandOk => (
                StateV::Merging { ctx },
                ActionV::MergeFastForward { branch: ctx.pr.branch },
            ),
            _ => fail_with(ctx.binding, ErrorV::Git { op: GitOp::CheckoutBase }),
        },
        StateV::Merging { ctx } => match ev {
            EventV::CommandOk => (
                StateV::PushingBase { ctx, retried: false },
                ActionV::PushBase { remote: cfg.remote, base: ctx.base },
            ),
            _ => fail_with(
                ctx.binding,
                ErrorV::MergeNotFastForward { branch: ctx.pr.branch, base: ctx.base },
            ),
        },
        StateV::PushingBase { ctx, retried } => match ev {
            EventV::CommandOk => if cfg.retain_branch {
                finish_success(ctx.binding)
            } else {
                (
                    StateV::DeletingBranch { binding: ctx.binding },
                    ActionV::DeleteBranch { branch: ctx.pr.branch },
                )
            },
            _ => if !retried {
                (
                    StateV::SleepingBeforeRetry { ctx },
                    ActionV::Sleep { kind: SleepKind::PushRetry },
                )
            } else {
                fail_with(
                    ctx.binding,
                    ErrorV::PushFailed { remote: cfg.remote, base: ctx.base },
                )
            },
        },
        StateV::SleepingBeforeRetry { ctx } => (
            StateV::PushingBase { ctx, retried: true },
            ActionV::PushBase { remote: cfg.remote, base: ctx.base },
        ),
        StateV::DeletingBranch { binding } => match ev {
            EventV::CommandOk => finish_success(binding),
            _ => fail_with(binding, ErrorV::Git { op: GitOp::DeleteBranch }),
        },
        StateV::RemovingRemote { outcome } => (StateV::Done { outcome }, ActionV::Stop),
        StateV::Done { outcome } => (StateV::Done { outcome }, ActionV::Stop),
    }
}

/// The initial state and first action of every run.
pub open spec fn init() -> (StateV, ActionV) {
    (StateV::CheckingGit, ActionV::CheckGitTool)
}

} // verus!
