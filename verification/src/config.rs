//! The immutable configuration of one orchestration run.

use vstd::prelude::*;

verus! {

/// Names one of the three configured sleep intervals. The engine only ever
/// asks the driver to sleep for one of these; the driver holds the actual
/// durations.
#[derive(Clone, Copy, Debug, PartialEq, Eq, Structural)]
pub enum SleepKind {
    /// The pause between two CI polls.
    CiPoll,
    /// The settling pause after force-pushing the rebased head branch.
    AfterRebasePush,
    /// The backoff before the single retry of the final base push.
    PushRetry,
}

/// Options of a run, fixed before the first step. Sleep durations are not
/// held here: the engine only ever asks the driver to sleep for one of the
/// configured intervals, named by [`crate::engine::SleepKind`].
pub struct RunConfig {
    /// The user token selecting the pull request or branch to merge, if any.
    pub token: Option<String>,
    /// Skip the CI gate entirely.
    pub ignore_ci: bool,
    /// Poll until CI leaves the `Incomplete` state before gating.
    pub wait_for_ci: bool,
    /// Run the gates only; perform no repository mutation.
    pub dry_run: bool,
    /// Keep the local head branch instead of deleting it at the end.
    pub retain_branch: bool,
    /// The remote used to fetch and push the base branch.
    pub remote: String,
    /// Apply fixup/squash commits automatically during the rebase.
    pub autosquash: bool,
}

/// Mathematical model of a [`RunConfig`].
pub struct RunConfigV {
    pub token: Option<Seq<char>>,
    pub ignore_ci: bool,
    pub wait_for_ci: bool,
    pub dry_run: bool,
    pub retain_branch: bool,
    pub remote: Seq<char>,
    pub autosquash: bool,
}

impl View for RunConfig {
    type V = RunConfigV;

    open spec fn view(&self) -> RunConfigV {
        RunConfigV {
            token: match self.token {
                Some(t) => Some(t@),
                None => None,
            },
            ignore_ci: self.ignore_ci,
            wait_for_ci: self.wait_for_ci,
            dry_run: self.dry_run,
            retain_branch: self.retain_branch,
            remote: self.remote@,
            autosquash: self.autosquash,
        }
    }
}

} // verus!
