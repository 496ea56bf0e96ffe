//! The failure taxonomy of an orchestration run, and the human-readable
//! message of each failure.

use vstd::prelude::*;
use vstd::string::StringExecFns;
use crate::status::{CheckFailure, CheckFailureV, CiState};

verus! {

/// The read-only platform query during which a transport failure occurred.
#[derive(Clone, Copy, Debug, PartialEq, Eq, Structural)]
pub enum ApiOp {
    RepoView,
    DefaultBranch,
    PrByNumber,
    PrHeadRepo,
    ForkUrl,
    Status,
}

/// The git operation during which a generic git failure occurred.
#[derive(Clone, Copy, Debug, PartialEq, Eq, Structural)]
pub enum GitOp {
    CurrentBranch,
    AddRemote,
    FetchHead,
    Checkout,
    LocalSha,
    RemoteSha,
    FetchBase,
    AbortRebase,
    ForcePush,
    CheckoutBase,
    DeleteBranch,
}

/// The API response field whose absence (or malformed shape) was detected.
#[derive(Clone, Copy, Debug, PartialEq, Eq, Structural)]
pub enum MissingField {
    OwnerLogin,
    RepoName,
    DefaultBranch,
    HeadRefName,
    HeadOwner,
    HeadRepo,
    ForkUrl,
    StatusPayload,
}

/// Why a run failed.
#[derive(Debug, PartialEq, Eq)]
pub enum Error {
    /// No token was given while the current branch is the default branch.
    Usage,
    /// A required external tool is absent; `git` when the flag is set, the
    /// platform CLI otherwise.
    ToolMissing { git: bool },
    /// A platform query could not be issued or answered.
    Transport { op: ApiOp },
    /// A platform response lacked a field the run needs.
    Protocol { field: MissingField },
    /// The pull request's review decision is not `APPROVED`.
    NotApproved { branch: String },
    /// CI is not aggregate-successful; carries every run whose resolved
    /// state is not `Success`.
    CiFailed { failing: Vec<CheckFailure> },
    /// The local head branch tip differs from the remote tracking tip.
    DivergedBranch { branch: String, remote: String },
    /// A git command failed.
    Git { op: GitOp },
    /// The rebase onto the base branch did not apply cleanly; it was aborted.
    RebaseConflict { branch: String, remote: String, base: String },
    /// The fast-forward-only merge of the head into the base was refused.
    MergeNotFastForward { branch: String, base: String },
    /// Pushing the base branch failed twice.
    PushFailed { remote: String, base: String },
}

/// Mathematical model of an [`Error`].
pub enum ErrorV {
    Usage,
    ToolMissing { git: bool },
    Transport { op: ApiOp },
    Protocol { field: MissingField },
    NotApproved { branch: Seq<char> },
    CiFailed { failing: Seq<CheckFailureV> },
    DivergedBranch { branch: Seq<char>, remote: Seq<char> },
    Git { op: GitOp },
    RebaseConflict { branch: Seq<char>, remote: Seq<char>, base: Seq<char> },
    MergeNotFastForward { branch: Seq<char>, base: Seq<char> },
    PushFailed { remote: Seq<char>, base: Seq<char> },
}

impl View for Error {
    type V = ErrorV;

    open spec fn view(&self) -> ErrorV {
        match self {
            Error::Usage => ErrorV::Usage,
            Error::ToolMissing { git } => ErrorV::ToolMissing { git: *git },
            Error::Transport { op } => ErrorV::Transport { op: *op },
            Error::Protocol { field } => ErrorV::Protocol { field: *field },
            Error::NotApproved { branch } => ErrorV::NotApproved { branch: branch@ },
            Error::CiFailed { failing } => ErrorV::CiFailed {
                failing: failing@.map_values(|f: CheckFailure| f@),
            },
            Error::DivergedBranch { branch, remote } => ErrorV::DivergedBranch {
                branch: branch@,
                remote: remote@,
            },
            Error::Git { op } => ErrorV::Git { op: *op },
            Error::RebaseConflict { branch, remote, base } => ErrorV::RebaseConflict {
                branch: branch@,
                remote: remote@,
                base: base@,
            },
            Error::MergeNotFastForward { branch, base } => ErrorV::MergeNotFastForward {
                branch: branch@,
                base: base@,
            },
            Error::PushFailed { remote, base } => ErrorV::PushFailed {
                remote: remote@,
                base: base@,
            },
        }
    }
}

/// How a run ended.
#[derive(Debug, PartialEq, Eq)]
pub enum Outcome {
    Success,
    Failure(Error),
}

/// Mathematical model of an [`Outcome`].
pub enum OutcomeV {
    Success,
    Failure(ErrorV),
}

impl View for Outcome {
    type V = OutcomeV;

    open spec fn view(&self) -> OutcomeV {
        match self {
            Outcome::Success => OutcomeV::Success,
            Outcome::Failure(e) => OutcomeV::Failure(e@),
        }
    }
}

pub open spec fn api_op_phrase(op: ApiOp) -> Seq<char> {
    match op {
        ApiOp::RepoView => "getting repo owner name"@,
        ApiOp::DefaultBranch => "getting repo default branch"@,
        ApiOp::PrByNumber => "getting pr data"@,
        ApiOp::PrHeadRepo => "getting pr data"@,
        ApiOp::ForkUrl => "getting foreign ssh url"@,
        ApiOp::Status => "getting status from github"@,
    }
}

pub open spec fn git_op_phrase(op: GitOp) -> Seq<char> {
    match op {
        GitOp::CurrentBranch => "getting current branch"@,
        GitOp::AddRemote => "adding remote"@,
        GitOp::FetchHead => "git fetch"@,
        GitOp::Checkout => "git checkout branch"@,
        GitOp::LocalSha => "reading branch sha"@,
        GitOp::RemoteSha => "reading remote branch sha"@,
        GitOp::FetchBase => "fetching the base remote"@,
        GitOp::AbortRebase => "aborting rebase"@,
        GitOp::ForcePush => "force-pushing branch"@,
        GitOp::CheckoutBase => "checking out base"@,
        GitOp::DeleteBranch => "removing merged branch"@,
    }
}

pub open spec fn missing_field_phrase(field: MissingField) -> Seq<char> {
    match field {
        MissingField::OwnerLogin => "owner login"@,
        MissingField::RepoName => "repository name"@,
        MissingField::DefaultBranch => "default branch"@,
        MissingField::HeadRefName => "headRefName"@,
        MissingField::HeadOwner => "head repository owner"@,
        MissingField::HeadRepo => "head repository name"@,
        MissingField::ForkUrl => "fork ssh url"@,
        MissingField::StatusPayload => "status payload"@,
    }
}

/// The message each failure prints.
pub open spec fn error_message(e: ErrorV) -> Seq<char> {
    match e {
        ErrorV::Usage => "on default branch; must specify the PR number or branch name to merge"@,
        ErrorV::ToolMissing { git } => if git {
            "tool `git` is required"@
        } else {
            "tool `gh` is required"@
        },
        ErrorV::Transport { op } => "failed "@ + api_op_phrase(op),
        ErrorV::Protocol { field } => "malformed response: missing "@ + missing_field_phrase(field),
        ErrorV::NotApproved { branch } => branch + " has not been approved"@,
        ErrorV::CiFailed { .. } => "some ci checks are incomplete or unsuccessful"@,
        ErrorV::DivergedBranch { branch, remote } => "local branch "@ + branch
            + " differs from remote branch "@ + remote + "/"@ + branch,
        ErrorV::Git { op } => "failed "@ + git_op_phrase(op),
        ErrorV::RebaseConflict { branch, remote, base } => branch + " did not cleanly rebase onto "@
            + remote + "/"@ + base + "; do so manually and try again"@,
        ErrorV::MergeNotFastForward { branch, base } => "could not fast-forward "@ + base + " to "@
            + branch,
        ErrorV::PushFailed { remote, base } => "2nd attempt to push "@ + base + " to "@ + remote
            + " failed"@,
    }
}

fn api_op_text(op: ApiOp) -> (r: String)
    ensures
        r@ == api_op_phrase(op),
{
    match op {
        ApiOp::RepoView => String::from_str("getting repo owner name"),
        ApiOp::DefaultBranch => String::from_str("getting repo default branch"),
        ApiOp::PrByNumber => String::from_str("getting pr data"),
        ApiOp::PrHeadRepo => String::from_str("getting pr data"),
        ApiOp::ForkUrl => String::from_str("getting foreign ssh url"),
        ApiOp::Status => String::from_str("getting status from github"),
    }
}

fn git_op_text(op: GitOp) -> (r: String)
    ensures
        r@ == git_op_phrase(op),
{
    match op {
        GitOp::CurrentBranch => String::from_str("getting current branch"),
        GitOp::AddRemote => String::from_str("adding remote"),
        GitOp::FetchHead => String::from_str("git fetch"),
        GitOp::Checkout => String::from_str("git checkout branch"),
        GitOp::LocalSha => String::from_str("reading branch sha"),
        GitOp::RemoteSha => String::from_str("reading remote branch sha"),
        GitOp::FetchBase => String::from_str("fetching the base remote"),
        GitOp::AbortRebase => String::from_str("aborting rebase"),
        GitOp::ForcePush => String::from_str("force-pushing branch"),
        GitOp::CheckoutBase => String::from_str("checking out base"),
        GitOp::DeleteBranch => String::from_str("removing merged branch"),
    }
}

fn missing_field_text(field: MissingField) -> (r: String)
    ensures
        r@ == missing_field_phrase(field),
{
    match field {
        MissingField::OwnerLogin => String::from_str("owner login"),
        MissingField::RepoName => String::from_str("repository name"),
        MissingField::DefaultBranch => String::from_str("default branch"),
        MissingField::HeadRefName => String::from_str("headRefName"),
        MissingField::HeadOwner => String::from_str("head repository owner"),
        MissingField::HeadRepo => String::from_str("head repository name"),
        MissingField::ForkUrl => String::from_str("fork ssh url"),
        MissingField::StatusPayload => String::from_str("status payload"),
    }
}

impl Error {
    /// Renders the failure's message.
    pub fn message(&self) -> (r: String)
        ensures
            r@ == error_message(self@),
    {
        match self {
            Error::Usage => String::from_str(
                "on default branch; must specify the PR number or branch name to merge",
            ),
            Error::ToolMissing { git } => if *git {
                String::from_str("tool `git` is required")
            } else {
                String::from_str("tool `gh` is required")
            },
            Error::Transport { op } => String::from_str("failed ").concat(
                api_op_text(*op).as_str(),
            ),
            Error::Protocol { field } => String::from_str("malformed response: missing ").concat(
                missing_field_text(*field).as_str(),
            ),
            Error::NotApproved { branch } => branch.clone().concat(" has not been approved"),
            Error::CiFailed { .. } => String::from_str(
                "some ci checks are incomplete or unsuccessful",
            ),
            Error::DivergedBranch { branch, remote } => String::from_str("local branch ").concat(
                branch.as_str(),
            ).concat(" differs from remote branch ").concat(remote.as_str()).concat("/").concat(
                branch.as_str(),
            ),
            Error::Git { op } => String::from_str("failed ").concat(git_op_text(*op).as_str()),
            Error::RebaseConflict { branch, remote, base } => branch.clone().concat(
                " did not cleanly rebase onto ",
            ).concat(remote.as_str()).concat("/").concat(base.as_str()).concat(
                "; do so manually and try again",
            ),
            Error::MergeNotFastForward { branch, base } => String::from_str(
                "could not fast-forward ",
            ).concat(base.as_str()).concat(" to ").concat(branch.as_str()),
            Error::PushFailed { remote, base } => String::from_str("2nd attempt to push ").concat(
                base.as_str(),
            ).concat(" to ").concat(remote.as_str()).concat(" failed"),
        }
    }
}

/// Name of a [`CiState`] as the failure report prints it.
pub open spec fn ci_state_name(s: CiState) -> Seq<char> {
    match s {
        CiState::Success => "Success"@,
        CiState::Incomplete => "Incomplete"@,
        CiState::Fail => "Fail"@,
    }
}

impl CheckFailure {
    /// One line of the failure report: `workflow / name: state`.
    pub fn line(&self) -> (r: String)
        ensures
            r@ == self@.workflow_name + " / "@ + self@.name + ": "@ + ci_state_name(self@.state),
    {
        let state_text = match self.state {
            CiState::Success => String::from_str("Success"),
            CiState::Incomplete => String::from_str("Incomplete"),
            CiState::Fail => String::from_str("Fail"),
        };
        self.workflow_name.clone().concat(" / ").concat(self.name.as_str()).concat(": ").concat(
            state_text.as_str(),
        )
    }
}

} // verus!
