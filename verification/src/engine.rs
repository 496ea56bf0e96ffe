//! Executable face of the orchestration: the state, action and event types
//! a driver works with, and the verified transition function [`step`],
//! proved to refine the model transition [`crate::model::next`].

use vstd::prelude::*;
use vstd::string::StringExecFns;
use vstd::string::StrSliceExecFns;
use crate::config::{RunConfig, SleepKind};
use crate::errors::{ApiOp, Error, GitOp, MissingField, Outcome};
use crate::model;
use crate::model::{ActionV, EventV, MergeCtxV, StateV};
use crate::reference::{head_remote_of, PrRef};
use crate::status::{CiState, Status};
use crate::text::{find_colon, is_pr_number, lemma_first_colon, str_eq};

verus! {

/// View of an optional string as an optional character sequence.
pub open spec fn opt_view(o: Option<String>) -> Option<Seq<char>> {
    match o {
        Some(s) => Some(s@),
        None => None,
    }
}

/// A command the engine asks the driver to perform. See [`ActionV`] for the
/// meaning of each variant.
#[derive(Debug, PartialEq, Eq)]
pub enum Action {
    CheckGitTool,
    CheckGhTool,
    ReadCurrentBranch,
    QueryRepoView,
    QueryDefaultBranch { owner: String, name: String },
    QueryPrByNumber { token: String },
    QueryPrHeadRepo { token: String },
    QueryForkUrl { owner: String, repo: String },
    AddRemote { name: String, url: String },
    QueryStatus { qualified_branch: String },
    Sleep { kind: SleepKind },
    FetchHead { remote: String, branch: String },
    CheckoutLocal { branch: String },
    CheckoutTracking { branch: String, remote: String },
    ReadLocalSha { branch: String },
    ReadRemoteSha { remote: String, branch: String },
    FetchBase { remote: String },
    Rebase { remote: String, base: String, autosquash: bool },
    AbortRebase,
    ForcePush { remote: String, branch: String },
    CheckoutBase { base: String },
    MergeFastForward { branch: String },
    PushBase { remote: String, base: String },
    DeleteBranch { branch: String },
    RemoveRemote { name: String },
    Stop,
}

impl View for Action {
    type V = ActionV;

    open spec fn view(&self) -> ActionV {
        match self {
            Action::CheckGitTool => ActionV::CheckGitTool,
            Action::CheckGhTool => ActionV::CheckGhTool,
            Action::ReadCurrentBranch => ActionV::ReadCurrentBranch,
            Action::QueryRepoView => ActionV::QueryRepoView,
            Action::QueryDefaultBranch { owner, name } => ActionV::QueryDefaultBranch {
                owner: owner@,
                name: name@,
            },
            Action::QueryPrByNumber { token } => ActionV::QueryPrByNumber { token: token@ },
            Action::QueryPrHeadRepo { token } => ActionV::QueryPrHeadRepo { token: token@ },
            Action::QueryForkUrl { owner, repo } => ActionV::QueryForkUrl {
                owner: owner@,
                repo: repo@,
            },
            Action::AddRemote { name, url } => ActionV::AddRemote { name: name@, url: url@ },
            Action::QueryStatus { qualified_branch } => ActionV::QueryStatus {
                qualified_branch: qualified_branch@,
            },
            Action::Sleep { kind } => ActionV::Sleep { kind: *kind },
            Action::FetchHead { remote, branch } => ActionV::FetchHead {
                remote: remote@,
                branch: branch@,
            },
            Action::CheckoutLocal { branch } => ActionV::CheckoutLocal { branch: branch@ },
            Action::CheckoutTracking { branch, remote } => ActionV::CheckoutTracking {
                branch: branch@,
                remote: remote@,
            },
            Action::ReadLocalSha { branch } => ActionV::ReadLocalSha { branch: branch@ },
            Action::ReadRemoteSha { remote, branch } => ActionV::ReadRemoteSha {
                remote: remote@,
                branch: branch@,
            },
            Action::FetchBase { remote } => ActionV::FetchBase { remote: remote@ },
            Action::Rebase { remote, base, autosquash } => ActionV::Rebase {
                remote: remote@,
                base: base@,
                autosquash: *autosquash,
            },
            Action::AbortRebase => ActionV::AbortRebase,
            Action::ForcePush { remote, branch } => ActionV::ForcePush {
                remote: remote@,
                branch: branch@,
            },
            Action::CheckoutBase { base } => ActionV::CheckoutBase { base: base@ },
            Action::MergeFastForward { branch } => ActionV::MergeFastForward { branch: branch@ },
            Action::PushBase { remote, base } => ActionV::PushBase {
                remote: remote@,
                base: base@,
            },
            Action::DeleteBranch { branch } => ActionV::DeleteBranch { branch: branch@ },
            Action::RemoveRemote { name } => ActionV::RemoveRemote { name: name@ },
            Action::Stop => ActionV::Stop,
        }
    }
}

/// The driver's answer to the last action. See [`EventV`].
#[derive(Debug, PartialEq, Eq)]
pub enum Event {
    ToolOk,
    ToolMissing,
    Output { text: String },
    CommandOk,
    CommandFailed,
    RepoView { owner_login: Option<String>, name: Option<String> },
    DefaultBranch { name: Option<String> },
    PrView { head_ref: Option<String>, head_owner: Option<String>, head_repo: Option<String> },
    HeadRepo { name: Option<String> },
    ForkUrl { url: Option<String> },
    StatusFetched { status: Status },
    StatusMalformed,
}

impl View for Event {
    type V = EventV;

    open spec fn view(&self) -> EventV {
        match self {
            Event::ToolOk => EventV::ToolOk,
            Event::ToolMissing => EventV::ToolMissing,
            Event::Output { text } => EventV::Output { text: text@ },
            Event::CommandOk => EventV::CommandOk,
            Event::CommandFailed => EventV::CommandFailed,
            Event::RepoView { owner_login, name } => EventV::RepoView {
                owner_login: opt_view(*owner_login),
                name: opt_view(*name),
            },
            Event::DefaultBranch { name } => EventV::DefaultBranch { name: opt_view(*name) },
            Event::PrView { head_ref, head_owner, head_repo } => EventV::PrView {
                head_ref: opt_view(*head_ref),
                head_owner: opt_view(*head_owner),
                head_repo: opt_view(*head_repo),
            },
            Event::HeadRepo { name } => EventV::HeadRepo { name: opt_view(*name) },
            Event::ForkUrl { url } => EventV::ForkUrl { url: opt_view(*url) },
            Event::StatusFetched { status } => EventV::StatusFetched { status: status@ },
            Event::StatusMalformed => EventV::StatusMalformed,
        }
    }
}

/// What the merge phase carries. See [`MergeCtxV`].
#[derive(Debug, PartialEq, Eq)]
pub struct MergeCtx {
    pub pr: PrRef,
    pub binding: Option<String>,
    pub base: String,
}

impl View for MergeCtx {
    type V = MergeCtxV;

    open spec fn view(&self) -> MergeCtxV {
        MergeCtxV { pr: self.pr@, binding: opt_view(self.binding), base: self.base@ }
    }
}

/// A state of the orchestration. See [`StateV`] for the meaning of each
/// variant.
#[derive(Debug, PartialEq, Eq)]
pub enum State {
    CheckingGit,
    CheckingGh,
    ReadingCurrentBranch,
    FetchingRepoView { current_branch: String },
    FetchingDefaultBranch { current_branch: String, owner_login: String },
    FetchingPrByNumber { owner_login: String },
    FetchingHeadRepo { fork_owner: String, branch: String },
    FetchingForkUrl { fork_owner: String, branch: String },
    AddingRemote { fork_owner: String, branch: String },
    AwaitingFirstStatus { pr: PrRef, binding: Option<String> },
    SleepingForCi { pr: PrRef, binding: Option<String> },
    AwaitingPolledStatus { pr: PrRef, binding: Option<String> },
    FetchingHead { ctx: MergeCtx },
    CheckingOutLocal { ctx: MergeCtx },
    CheckingOutTracking { ctx: MergeCtx },
    ReadingLocalShaPre { ctx: MergeCtx },
    ReadingRemoteShaPre { ctx: MergeCtx, local_sha: String },
    FetchingBase { ctx: MergeCtx },
    Rebasing { ctx: MergeCtx },
    AbortingRebase { ctx: MergeCtx },
    ReadingLocalShaPost { ctx: MergeCtx },
    ReadingRemoteShaPost { ctx: MergeCtx, local_sha: String },
    ForcePushing { ctx: MergeCtx },
    SleepingAfterPush { ctx: MergeCtx },
    CheckingOutBase { ctx: MergeCtx },
    Merging { ctx: MergeCtx },
    PushingBase { ctx: MergeCtx, retried: bool },
    SleepingBeforeRetry { ctx: MergeCtx },
    DeletingBranch { binding: Option<String> },
    RemovingRemote { outcome: Outcome },
    Done { outcome: Outcome },
}

impl View for State {
    type V = StateV;

    open spec fn view(&self) -> StateV {
        match self {
            State::CheckingGit => StateV::CheckingGit,
            State::CheckingGh => StateV::CheckingGh,
            State::ReadingCurrentBranch => StateV::ReadingCurrentBranch,
            State::FetchingRepoView { current_branch } => StateV::FetchingRepoView {
                current_branch: current_branch@,
            },
            State::FetchingDefaultBranch { current_branch, owner_login } => {
                StateV::FetchingDefaultBranch {
                    current_branch: current_branch@,
                    owner_login: owner_login@,
                }
            },
            State::FetchingPrByNumber { owner_login } => StateV::FetchingPrByNumber {
                owner_login: owner_login@,
            },
            State::FetchingHeadRepo { fork_owner, branch } => StateV::FetchingHeadRepo {
                fork_owner: fork_owner@,
                branch: branch@,
            },
            State::FetchingForkUrl { fork_owner, branch } => StateV::FetchingForkUrl {
                fork_owner: fork_owner@,
                branch: branch@,
            },
            State::AddingRemote { fork_owner, branch } => StateV::AddingRemote {
                fork_owner: fork_owner@,
                branch: branch@,
            },
            State::AwaitingFirstStatus { pr, binding } => StateV::AwaitingFirstStatus {
                pr: pr@,
                binding: opt_view(*binding),
            },
            State::SleepingForCi { pr, binding } => StateV::SleepingForCi {
                pr: pr@,
                binding: opt_view(*binding),
            },
            State::AwaitingPolledStatus { pr, binding } => StateV::AwaitingPolledStatus {
                pr: pr@,
                binding: opt_view(*binding),
            },
            State::FetchingHead { ctx } => StateV::FetchingHead { ctx: ctx@ },
            State::CheckingOutLocal { ctx } => StateV::CheckingOutLocal { ctx: ctx@ },
            State::CheckingOutTracking { ctx } => StateV::CheckingOutTracking { ctx: ctx@ },
            State::ReadingLocalShaPre { ctx } => StateV::ReadingLocalShaPre { ctx: ctx@ },
            State::ReadingRemoteShaPre { ctx, local_sha } => StateV::ReadingRemoteShaPre {
                ctx: ctx@,
                local_sha: local_sha@,
            },
            State::FetchingBase { ctx } => StateV::FetchingBase { ctx: ctx@ },
            State::Rebasing { ctx } => StateV::Rebasing { ctx: ctx@ },
            State::AbortingRebase { ctx } => StateV::AbortingRebase { ctx: ctx@ },
            State::ReadingLocalShaPost { ctx } => StateV::ReadingLocalShaPost { ctx: ctx@ },
            State::ReadingRemoteShaPost { ctx, local_sha } => StateV::ReadingRemoteShaPost {
                ctx: ctx@,
                local_sha: local_sha@,
            },
            State::ForcePushing { ctx } => StateV::ForcePushing { ctx: ctx@ },
            State::SleepingAfterPush { ctx } => StateV::SleepingAfterPush { ctx: ctx@ },
            State::CheckingOutBase { ctx } => StateV::CheckingOutBase { ctx: ctx@ },
            State::Merging { ctx } => StateV::Merging { ctx: ctx@ },
            State::PushingBase { ctx, retried } => StateV::PushingBase {
                ctx: ctx@,
                retried: *retried,
            },
            State::SleepingBeforeRetry { ctx } => StateV::SleepingBeforeRetry { ctx: ctx@ },
            State::DeletingBranch { binding } => StateV::DeletingBranch {
                binding: opt_view(*binding),
            },
            State::RemovingRemote { outcome } => StateV::RemovingRemote { outcome: outcome@ },
            State::Done { outcome } => StateV::Done { outcome: outcome@ },
        }
    }
}

impl State {
    /// Whether the run is over; the driver stops once this holds.
    pub fn is_done(&self) -> (r: bool)
        ensures
            r == (self@ is Done),
    {
        match self {
            State::Done { .. } => true,
            _ => false,
        }
    }
}

/// The remote owning the head branch: the fork remote when bound, else the
/// configured default remote.
fn head_remote(pr: &PrRef, cfg: &RunConfig) -> (r: String)
    ensures
        r@ == head_remote_of(pr@, cfg@.remote),
{
    match &pr.fork_owner {
        Some(owner) => owner.clone(),
        None => cfg.remote.clone(),
    }
}

/// Ends the run with a failure, releasing the ephemeral remote first when
/// one was added.
fn fail_with(binding: Option<String>, e: Error) -> (r: (State, Action))
    ensures
        (r.0@, r.1@) == model::fail_with(opt_view(binding), e@),
{
    match binding {
        Some(name) => (
            State::RemovingRemote { outcome: Outcome::Failure(e) },
            Action::RemoveRemote { name },
        ),
        None => (State::Done { outcome: Outcome::Failure(e) }, Action::Stop),
    }
}

/// Ends the run successfully, releasing the ephemeral remote first when one
/// was added.
fn finish_success(binding: Option<String>) -> (r: (State, Action))
    ensures
        (r.0@, r.1@) == model::finish_success(opt_view(binding)),
{
    match binding {
        Some(name) => (
            State::RemovingRemote { outcome: Outcome::Success },
            Action::RemoveRemote { name },
        ),
        None => (State::Done { outcome: Outcome::Success }, Action::Stop),
    }
}

/// Moves to the first status query for a resolved reference.
fn goto_first_status(pr: PrRef, binding: Option<String>) -> (r: (State, Action))
    ensures
        (r.0@, r.1@) == model::goto_first_status(pr@, opt_view(binding)),
{
    let qualified_branch = pr.qualified_branch();
    (State::AwaitingFirstStatus { pr, binding }, Action::QueryStatus { qualified_branch })
}

/// Applies the CI gate and the dry-run short-circuit to a snapshot, then
/// begins the git phase.
fn apply_gates(cfg: &RunConfig, pr: PrRef, binding: Option<String>, status: Status) -> (r: (
    State,
    Action,
))
    ensures
        (r.0@, r.1@) == model::apply_gates(cfg@, pr@, opt_view(binding), status@),
{
    let aggregate = status.ci_state();
    if !cfg.ignore_ci && aggregate != CiState::Success {
        let failing = status.failing_checks();
        fail_with(binding, Error::CiFailed { failing })
    } else if cfg.dry_run {
        finish_success(binding)
    } else {
        let remote = head_remote(&pr, cfg);
        let branch = pr.branch.clone();
        let ctx = MergeCtx { pr, binding, base: status.base_ref_name };
        (State::FetchingHead { ctx }, Action::FetchHead { remote, branch })
    }
}

/// Resolves the user token once the default branch is known.
fn resolve_token(cfg: &RunConfig, current_branch: String, owner_login: String) -> (r: (
    State,
    Action,
))
    ensures
        (r.0@, r.1@) == model::resolve_token(cfg@, current_branch@, owner_login@),
{
    match &cfg.token {
        None => goto_first_status(PrRef::from_branch(current_branch), None),
        Some(token) => {
            if is_pr_number(token.as_str()) {
                (
                    State::FetchingPrByNumber { owner_login },
                    Action::QueryPrByNumber { token: token.clone() },
                )
            } else {
                match find_colon(token.as_str()) {
                    Some(i) => {
                        proof {
                            lemma_first_colon(token@);
                        }
                        let len = token.as_str().unicode_len();
                        let fork_owner = String::from_str(token.as_str().substring_char(0, i));
                        let branch = String::from_str(
                            token.as_str().substring_char(i + 1, len),
                        );
                        (
                            State::FetchingHeadRepo { fork_owner, branch },
                            Action::QueryPrHeadRepo { token: token.clone() },
                        )
                    },
                    None => goto_first_status(PrRef::from_branch(token.clone()), None),
                }
            }
        },
    }
}

/// The initial state and the first command of every run.
pub fn start() -> (r: (State, Action))
    ensures
        (r.0@, r.1@) == model::init(),
{
    (State::CheckingGit, Action::CheckGitTool)
}

/// One step of the orchestration: consumes the driver's answer to the
/// pending action and decides the next state and action. Refines
/// [`model::next`] exactly; in particular an answer of an unexpected shape
/// counts as the pending command having failed, and a finished run stays
/// finished.
pub fn step(cfg: &RunConfig, st: State, ev: Event) -> (r: (State, Action))
    ensures
        (r.0@, r.1@) == model::next(cfg@, st@, ev@),
{
    match (st, ev) {
        (State::CheckingGit, Event::ToolOk) => (State::CheckingGh, Action::CheckGhTool),
        (State::CheckingGit, _) => fail_with(None, Error::ToolMissing { git: true }),
        (State::CheckingGh, Event::ToolOk) => (
            State::ReadingCurrentBranch,
            Action::ReadCurrentBranch,
        ),
        (State::CheckingGh, _) => fail_with(None, Error::ToolMissing { git: false }),
        (State::ReadingCurrentBranch, Event::Output { text }) => (
            State::FetchingRepoView { current_branch: text },
            Action::QueryRepoView,
        ),
        (State::ReadingCurrentBranch, _) => fail_with(
            None,
            Error::Git { op: GitOp::CurrentBranch },
        ),
        (
            State::FetchingRepoView { current_branch },
            Event::RepoView { owner_login, name },
        ) => match owner_login {
            None => fail_with(None, Error::Protocol { field: MissingField::OwnerLogin }),
            Some(owner) => match name {
                None => fail_with(None, Error::Protocol { field: MissingField::RepoName }),
                Some(nm) => {
                    let owner_login = owner.clone();
                    (
                        State::FetchingDefaultBranch { current_branch, owner_login },
                        Action::QueryDefaultBranch { owner, name: nm },
                    )
                },
            },
        },
        (State::FetchingRepoView { .. }, _) => fail_with(
            None,
            Error::Transport { op: ApiOp::RepoView },
        ),
        (
            State::FetchingDefaultBranch { current_branch, owner_login },
            Event::DefaultBranch { name },
        ) => match name {
            None => fail_with(None, Error::Protocol { field: MissingField::DefaultBranch }),
            Some(default_branch) => {
                if cfg.token.is_none() && str_eq(
                    current_branch.as_str(),
                    default_branch.as_str(),
                ) {
                    fail_with(None, Error::Usage)
                } else {
                    resolve_token(cfg, current_branch, owner_login)
                }
            },
        },
        (State::FetchingDefaultBranch { .. }, _) => fail_with(
            None,
            Error::Transport { op: ApiOp::DefaultBranch },
        ),
        (
            State::FetchingPrByNumber { owner_login },
            Event::PrView { head_ref, head_owner, head_repo },
        ) => match head_ref {
            None => fail_with(None, Error::Protocol { field: MissingField::HeadRefName }),
            Some(branch) => match head_owner {
                None => fail_with(None, Error::Protocol { field: MissingField::HeadOwner }),
                Some(owner) => match head_repo {
                    None => fail_with(None, Error::Protocol { field: MissingField::HeadRepo }),
                    Some(repo) => {
                        if owner == owner_login {
                            goto_first_status(PrRef::from_branch(branch), None)
                        } else {
                            let fork_owner = owner.clone();
                            (
                                State::FetchingForkUrl { fork_owner, branch },
                                Action::QueryForkUrl { owner, repo },
                            )
                        }
                    },
                },
            },
        },
        (State::FetchingPrByNumber { .. }, _) => fail_with(
            None,
            Error::Transport { op: ApiOp::PrByNumber },
        ),
        (State::FetchingHeadRepo { fork_owner, branch }, Event::HeadRepo { name }) => match name {
            None => fail_with(None, Error::Protocol { field: MissingField::HeadRepo }),
            Some(repo) => {
                let owner = fork_owner.clone();
                (
                    State::FetchingForkUrl { fork_owner, branch },
                    Action::QueryForkUrl { owner, repo },
                )
            },
        },
        (State::FetchingHeadRepo { .. }, _) => fail_with(
            None,
            Error::Transport { op: ApiOp::PrHeadRepo },
        ),
        (State::FetchingForkUrl { fork_owner, branch }, Event::ForkUrl { url }) => match url {
            None => fail_with(None, Error::Protocol { field: MissingField::ForkUrl }),
            Some(url) => {
                let name = fork_owner.clone();
                (
                    State::AddingRemote { fork_owner, branch },
                    Action::AddRemote { name, url },
                )
            },
        },
        (State::FetchingForkUrl { .. }, _) => fail_with(
            None,
            Error::Transport { op: ApiOp::ForkUrl },
        ),
        (State::AddingRemote { fork_owner, branch }, Event::CommandOk) => {
            let binding = Some(fork_owner.clone());
            goto_first_status(PrRef { branch, fork_owner: Some(fork_owner) }, binding)
        },
        (State::AddingRemote { .. }, _) => fail_with(None, Error::Git { op: GitOp::AddRemote }),
        (State::AwaitingFirstStatus { pr, binding }, Event::StatusFetched { status }) => {
            if !status.is_approved() {
                fail_with(binding, Error::NotApproved { branch: pr.branch })
            } else if cfg.wait_for_ci && status.ci_state() == CiState::Incomplete {
                (
                    State::SleepingForCi { pr, binding },
                    Action::Sleep { kind: SleepKind::CiPoll },
                )
            } else {
                apply_gates(cfg, pr, binding, status)
            }
        },
        (State::AwaitingFirstStatus { pr: _, binding }, Event::StatusMalformed) => fail_with(
            binding,
            Error::Protocol { field: MissingField::StatusPayload },
        ),
        (State::AwaitingFirstStatus { pr: _, binding }, _) => fail_with(
            binding,
            Error::Transport { op: ApiOp::Status },
        ),
        (State::SleepingForCi { pr, binding }, _) => {
            let qualified_branch = pr.qualified_branch();
            (
                State::AwaitingPolledStatus { pr, binding },
                Action::QueryStatus { qualified_branch },
            )
        },
        (State::AwaitingPolledStatus { pr, binding }, Event::StatusFetched { status }) => {
            if status.ci_state() == CiState::Incomplete {
                (
                    State::SleepingForCi { pr, binding },
                    Action::Sleep { kind: SleepKind::CiPoll },
                )
            } else {
                apply_gates(cfg, pr, binding, status)
            }
        },
        (State::AwaitingPolledStatus { pr: _, binding }, Event::StatusMalformed) => fail_with(
            binding,
            Error::Protocol { field: MissingField::StatusPayload },
        ),
        (State::AwaitingPolledStatus { pr: _, binding }, _) => fail_with(
            binding,
            Error::Transport { op: ApiOp::Status },
        ),
        (State::FetchingHead { ctx }, Event::CommandOk) => {
            let branch = ctx.pr.branch.clone();
            (State::CheckingOutLocal { ctx }, Action::CheckoutLocal { branch })
        },
        (State::FetchingHead { ctx }, _) => fail_with(
            ctx.binding,
            Error::Git { op: GitOp::FetchHead },
        ),
        (State::CheckingOutLocal { ctx }, Event::CommandOk) => {
            let branch = ctx.pr.branch.clone();
            (State::ReadingLocalShaPre { ctx }, Action::ReadLocalSha { branch })
        },
        (State::CheckingOutLocal { ctx }, _) => {
            let branch = ctx.pr.branch.clone();
            let remote = head_remote(&ctx.pr, cfg);
            (State::CheckingOutTracking { ctx }, Action::CheckoutTracking { branch, remote })
        },
        (State::CheckingOutTracking { ctx }, Event::CommandOk) => {
            let branch = ctx.pr.branch.clone();
            (State::ReadingLocalShaPre { ctx }, Action::ReadLocalSha { branch })
        },
        (State::CheckingOutTracking { ctx }, _) => fail_with(
            ctx.binding,
            Error::Git { op: GitOp::Checkout },
        ),
        (State::ReadingLocalShaPre { ctx }, Event::Output { text }) => {
            let remote = head_remote(&ctx.pr, cfg);
            let branch = ctx.pr.branch.clone();
            (
                State::ReadingRemoteShaPre { ctx, local_sha: text },
                Action::ReadRemoteSha { remote, branch },
            )
        },
        (State::ReadingLocalShaPre { ctx }, _) => fail_with(
            ctx.binding,
            Error::Git { op: GitOp::LocalSha },
        ),
        (State::ReadingRemoteShaPre { ctx, local_sha }, Event::Output { text }) => {
            if text == local_sha {
                let remote = cfg.remote.clone();
                (State::FetchingBase { ctx }, Action::FetchBase { remote })
            } else {
                let remote = head_remote(&ctx.pr, cfg);
                fail_with(
                    ctx.binding,
                    Error::DivergedBranch { branch: ctx.pr.branch, remote },
                )
            }
        },
        (State::ReadingRemoteShaPre { ctx, .. }, _) => fail_with(
            ctx.binding,
            Error::Git { op: GitOp::RemoteSha },
        ),
        (State::FetchingBase { ctx }, Event::CommandOk) => {
            let remote = cfg.remote.clone();
            let base = ctx.base.clone();
            (
                State::Rebasing { ctx },
                Action::Rebase { remote, base, autosquash: cfg.autosquash },
            )
        },
        (State::FetchingBase { ctx }, _) => fail_with(
            ctx.binding,
            Error::Git { op: GitOp::FetchBase },
        ),
        (State::Rebasing { ctx }, Event::CommandOk) => {
            let branch = ctx.pr.branch.clone();
            (State::ReadingLocalShaPost { ctx }, Action::ReadLocalSha { branch })
        },
        (State::Rebasing { ctx }, _) => (State::AbortingRebase { ctx }, Action::AbortRebase),
        (State::AbortingRebase { ctx }, Event::CommandOk) => {
            let remote = cfg.remote.clone();
            fail_with(
                ctx.binding,
                Error::RebaseConflict { branch: ctx.pr.branch, remote, base: ctx.base },
            )
        },
        (State::AbortingRebase { ctx }, _) => fail_with(
            ctx.binding,
            Error::Git { op: GitOp::AbortRebase },
        ),
        (State::ReadingLocalShaPost { ctx }, Event::Output { text }) => {
            let remote = head_remote(&ctx.pr, cfg);
            let branch = ctx.pr.branch.clone();
            (
                State::ReadingRemoteShaPost { ctx, local_sha: text },
                Action::ReadRemoteSha { remote, branch },
            )
        },
        (State::ReadingLocalShaPost { ctx }, _) => fail_with(
            ctx.binding,
            Error::Git { op: GitOp::LocalSha },
        ),
        (State::ReadingRemoteShaPost { ctx, local_sha }, Event::Output { text }) => {
            if text == local_sha {
                let base = ctx.base.clone();
                (State::CheckingOutBase { ctx }, Action::CheckoutBase { base })
            } else {
                let remote = head_remote(&ctx.pr, cfg);
                let branch = ctx.pr.branch.clone();
                (State::ForcePushing { ctx }, Action::ForcePush { remote, branch })
            }
        },
        (State::ReadingRemoteShaPost { ctx, .. }, _) => fail_with(
            ctx.binding,
            Error::Git { op: GitOp::RemoteSha },
        ),
        (State::ForcePushing { ctx }, Event::CommandOk) => (
            State::SleepingAfterPush { ctx },
            Action::Sleep { kind: SleepKind::AfterRebasePush },
        ),
        (State::ForcePushing { ctx }, _) => fail_with(
            ctx.binding,
            Error::Git { op: GitOp::ForcePush },
        ),
        (State::SleepingAfterPush { ctx }, _) => {
            let base = ctx.base.clone();
            (State::CheckingOutBase { ctx }, Action::CheckoutBase { base })
        },
        (State::CheckingOutBase { ctx }, Event::CommandOk) => {
            let branch = ctx.pr.branch.clone();
            (State::Merging { ctx }, Action::MergeFastForward { branch })
        },
        (State::CheckingOutBase { ctx }, _) => fail_with(
            ctx.binding,
            Error::Git { op: GitOp::CheckoutBase },
        ),
        (State::Merging { ctx }, Event::CommandOk) => {
            let remote = cfg.remote.clone();
            let base = ctx.base.clone();
            (State::PushingBase { ctx, retried: false }, Action::PushBase { remote, base })
        },
        (State::Merging { ctx }, _) => fail_with(
            ctx.binding,
            Error::MergeNotFastForward { branch: ctx.pr.branch, base: ctx.base },
        ),
        (State::PushingBase { ctx, retried: _ }, Event::CommandOk) => {
            if cfg.retain_branch {
                finish_success(ctx.binding)
            } else {
                let branch = ctx.pr.branch.clone();
                (
                    State::DeletingBranch { binding: ctx.binding },
                    Action::DeleteBranch { branch },
                )
            }
        },
        (State::PushingBase { ctx, retried }, _) => {
            if !retried {
                (
                    State::SleepingBeforeRetry { ctx },
                    Action::Sleep { kind: SleepKind::PushRetry },
                )
            } else {
                let remote = cfg.remote.clone();
                fail_with(ctx.binding, Error::PushFailed { remote, base: ctx.base })
            }
        },
        (State::SleepingBeforeRetry { ctx }, _) => {
            let remote = cfg.remote.clone();
            let base = ctx.base.clone();
            (State::PushingBase { ctx, retried: true }, Action::PushBase { remote, base })
        },
        (State::DeletingBranch { binding }, Event::CommandOk) => finish_success(binding),
        (State::DeletingBranch { binding }, _) => fail_with(
            binding,
            Error::Git { op: GitOp::DeleteBranch },
        ),
        (State::RemovingRemote { outcome }, _) => (State::Done { outcome }, Action::Stop),
        (State::Done { outcome }, _) => (State::Done { outcome }, Action::Stop),
    }
}

} // verus!
