//! Whole-run reasoning: the trace of a run as a fold of the transition
//! relation over the driver's answers, and the safety laws of the protocol.

use vstd::prelude::*;
use crate::config::RunConfigV;
use crate::errors::ErrorV;
use crate::model::{apply_gates, fail_with, finish_success, next, ActionV, EventV, StateV};
use crate::status::{aggregate_ci_state, spec_is_approved, CiState, StatusV};

verus! {

/// The state a run reaches from `st` after consuming `evs`, stopping early
/// once the run is over.
pub open spec fn run_state(cfg: RunConfigV, st: StateV, evs: Seq<EventV>) -> StateV
    decreases evs.len(),
{
    if evs.len() == 0 || st is Done {
        st
    } else {
        run_state(cfg, next(cfg, st, evs[0]).0, evs.drop_first())
    }
}

/// The actions a run from `st` issues while consuming `evs`, stopping early
/// once the run is over.
pub open spec fn run_actions(cfg: RunConfigV, st: StateV, evs: Seq<EventV>) -> Seq<ActionV>
    decreases evs.len(),
{
    if evs.len() == 0 || st is Done {
        Seq::empty()
    } else {
        seq![next(cfg, st, evs[0]).1] + run_actions(cfg, next(cfg, st, evs[0]).0, evs.drop_first())
    }
}

/// Actions that mutate the repository: fetches, checkouts, the rebase and
/// its abort, the pushes, the merge, and the branch deletion. The ephemeral
/// fork remote's add/remove bookkeeping, the read-only queries and SHA
/// reads, the tool checks and the sleeps are not among them.
pub open spec fn is_repo_mutation(a: ActionV) -> bool {
    ||| a is FetchHead
    ||| a is CheckoutLocal
    ||| a is CheckoutTracking
    ||| a is FetchBase
    ||| a is Rebase
    ||| a is AbortRebase
    ||| a is ForcePush
    ||| a is CheckoutBase
    ||| a is MergeFastForward
    ||| a is PushBase
    ||| a is DeleteBranch
}

/// The rebase/push family of commands.
pub open spec fn is_rebase_or_push(a: ActionV) -> bool {
    ||| a is Rebase
    ||| a is AbortRebase
    ||| a is ForcePush
    ||| a is PushBase
}

pub open spec fn no_repo_mutation(actions: Seq<ActionV>) -> bool {
    forall|k: int| 0 <= k < actions.len() ==> !is_repo_mutation(#[trigger] actions[k])
}

pub open spec fn no_rebase_or_push(actions: Seq<ActionV>) -> bool {
    forall|k: int| 0 <= k < actions.len() ==> !is_rebase_or_push(#[trigger] actions[k])
}

/// States in which the run's outcome is already decided: only the removal
/// of the ephemeral remote and the stop remain.
pub open spec fn winding_down(st: StateV) -> bool {
    st is RemovingRemote || st is Done
}

/// States at or before the approval gate: nothing beyond tool checks,
/// queries and the ephemeral remote's addition has been asked for.
pub open spec fn pre_approval(st: StateV) -> bool {
    match st {
        StateV::CheckingGit => true,
        StateV::CheckingGh => true,
        StateV::ReadingCurrentBranch => true,
        StateV::FetchingRepoView { .. } => true,
        StateV::FetchingDefaultBranch { .. } => true,
        StateV::FetchingPrByNumber { .. } => true,
        StateV::FetchingHeadRepo { .. } => true,
        StateV::FetchingForkUrl { .. } => true,
        StateV::AddingRemote { .. } => true,
        StateV::AwaitingFirstStatus { .. } => true,
        _ => false,
    }
}

/// States at or before the gates, including the CI polling loop.
pub open spec fn pre_gate(st: StateV) -> bool {
    ||| pre_approval(st)
    ||| st is SleepingForCi
    ||| st is AwaitingPolledStatus
}

/// States at or before the pre-rebase sync check.
pub open spec fn before_rebase(st: StateV) -> bool {
    ||| pre_gate(st)
    ||| st is FetchingHead
    ||| st is CheckingOutLocal
    ||| st is CheckingOutTracking
    ||| st is ReadingLocalShaPre
    ||| st is ReadingRemoteShaPre
}

/// A winding-down run issues no repository mutation and stays winding down.
pub proof fn lemma_winding_down_run(cfg: RunConfigV, st: StateV, evs: Seq<EventV>)
    requires
        winding_down(st),
    ensures
        no_repo_mutation(run_actions(cfg, st, evs)),
        no_rebase_or_push(run_actions(cfg, st, evs)),
        winding_down(run_state(cfg, st, evs)),
    decreases evs.len(),
{
    if evs.len() == 0 || st is Done {
    } else {
        let (st2, a) = next(cfg, st, evs[0]);
        lemma_winding_down_run(cfg, st2, evs.drop_first());
        assert(run_actions(cfg, st, evs) == seq![a] + run_actions(cfg, st2, evs.drop_first()));
    }
}

/// The approval gate: an unapproved first snapshot ends the run at once
/// with `NotApproved`, naming the head branch, releasing the ephemeral
/// remote when one was added.
pub proof fn lemma_approval_gate_stops(
    cfg: RunConfigV,
    pr: crate::reference::PrRefV,
    binding: Option<Seq<char>>,
    status: StatusV,
)
    requires
        !spec_is_approved(status),
    ensures
        next(cfg, StateV::AwaitingFirstStatus { pr, binding }, EventV::StatusFetched { status })
            == fail_with(binding, ErrorV::NotApproved { branch: pr.branch }),
        winding_down(
            next(
                cfg,
                StateV::AwaitingFirstStatus { pr, binding },
                EventV::StatusFetched { status },
            ).0,
        ),
{
}

/// When every status snapshot a run ever fetches is unapproved, a run that
/// has not passed the approval gate issues no repository mutation at all.
pub open spec fn all_status_unapproved(evs: Seq<EventV>) -> bool {
    forall|k: int|
        0 <= k < evs.len() ==> (#[trigger] evs[k] matches EventV::StatusFetched { status }
            ==> !spec_is_approved(status))
}

pub proof fn lemma_unapproved_run_no_mutation(cfg: RunConfigV, st: StateV, evs: Seq<EventV>)
    requires
        pre_approval(st) || winding_down(st),
        all_status_unapproved(evs),
    ensures
        no_repo_mutation(run_actions(cfg, st, evs)),
    decreases evs.len(),
{
    if evs.len() == 0 || st is Done {
    } else if winding_down(st) {
        lemma_winding_down_run(cfg, st, evs);
    } else {
        let (st2, a) = next(cfg, st, evs[0]);
        assert(evs[0] matches EventV::StatusFetched { status } ==> !spec_is_approved(status));
        assert(!is_repo_mutation(a));
        assert(pre_approval(st2) || winding_down(st2));
        assert(all_status_unapproved(evs.drop_first())) by {
            assert(forall|k: int|
                0 <= k < evs.drop_first().len() ==> #[trigger] evs.drop_first()[k] == evs[k + 1]);
        }
        lemma_unapproved_run_no_mutation(cfg, st2, evs.drop_first());
        assert(run_actions(cfg, st, evs) == seq![a] + run_actions(cfg, st2, evs.drop_first()));
    }
}

/// Under dry-run, a run that has not passed the gates issues no repository
/// mutation, whatever the driver answers.
pub proof fn lemma_dry_run_no_mutation(cfg: RunConfigV, st: StateV, evs: Seq<EventV>)
    requires
        cfg.dry_run,
        pre_gate(st) || winding_down(st),
    ensures
        no_repo_mutation(run_actions(cfg, st, evs)),
    decreases evs.len(),
{
    if evs.len() == 0 || st is Done {
    } else if winding_down(st) {
        lemma_winding_down_run(cfg, st, evs);
    } else {
        let (st2, a) = next(cfg, st, evs[0]);
        assert(!is_repo_mutation(a));
        assert(pre_gate(st2) || winding_down(st2));
        lemma_dry_run_no_mutation(cfg, st2, evs.drop_first());
        assert(run_actions(cfg, st, evs) == seq![a] + run_actions(cfg, st2, evs.drop_first()));
    }
}

/// Under dry-run, a snapshot that passes both gates ends the run
/// successfully on the spot — the only successful path with no repository
/// mutation at all.
pub proof fn lemma_dry_run_gates_succeed(
    cfg: RunConfigV,
    pr: crate::reference::PrRefV,
    binding: Option<Seq<char>>,
    status: StatusV,
)
    requires
        cfg.dry_run,
        spec_is_approved(status),
        cfg.ignore_ci || aggregate_ci_state(status.status_check_rollup) == CiState::Success,
        !(cfg.wait_for_ci && aggregate_ci_state(status.status_check_rollup)
            == CiState::Incomplete),
    ensures
        next(cfg, StateV::AwaitingFirstStatus { pr, binding }, EventV::StatusFetched { status })
            == finish_success(binding),
{
    assert(apply_gates(cfg, pr, binding, status) == finish_success(binding));
}

/// The CI gate: an approved snapshot whose aggregate is not `Success`, not
/// being waited on and not ignored, ends the run with `CiFailed`, carrying
/// every run of the rollup whose resolved state is not `Success`.
pub proof fn lemma_ci_gate_stops(
    cfg: RunConfigV,
    pr: crate::reference::PrRefV,
    binding: Option<Seq<char>>,
    status: StatusV,
)
    requires
        spec_is_approved(status),
        !cfg.ignore_ci,
        aggregate_ci_state(status.status_check_rollup) != CiState::Success,
        !(cfg.wait_for_ci && aggregate_ci_state(status.status_check_rollup)
            == CiState::Incomplete),
    ensures
        next(cfg, StateV::AwaitingFirstStatus { pr, binding }, EventV::StatusFetched { status })
            == fail_with(
            binding,
            ErrorV::CiFailed { failing: crate::status::failing_of(status.status_check_rollup) },
        ),
{
}

/// A run whose every fetched status is unapproved, taken from the very
/// start, issues no repository mutation at all.
pub proof fn lemma_unapproved_run_from_start(cfg: RunConfigV, evs: Seq<EventV>)
    requires
        all_status_unapproved(evs),
    ensures
        no_repo_mutation(run_actions(cfg, crate::model::init().0, evs)),
{
    lemma_unapproved_run_no_mutation(cfg, crate::model::init().0, evs);
}

/// A dry run, taken from the very start, issues no repository mutation at
/// all, whatever the driver answers.
pub proof fn lemma_dry_run_from_start(cfg: RunConfigV, evs: Seq<EventV>)
    requires
        cfg.dry_run,
    ensures
        no_repo_mutation(run_actions(cfg, crate::model::init().0, evs)),
{
    lemma_dry_run_no_mutation(cfg, crate::model::init().0, evs);
}

/// The pre-rebase sync check: a remote tracking SHA that differs from the
/// local tip ends the run at once with `DivergedBranch`.
pub proof fn lemma_sync_check_stops(
    cfg: RunConfigV,
    ctx: crate::model::MergeCtxV,
    local_sha: Seq<char>,
    text: Seq<char>,
)
    requires
        text != local_sha,
    ensures
        next(cfg, StateV::ReadingRemoteShaPre { ctx, local_sha }, EventV::Output { text })
            == fail_with(
            ctx.binding,
            ErrorV::DivergedBranch {
                branch: ctx.pr.branch,
                remote: crate::reference::head_remote_of(ctx.pr, cfg.remote),
            },
        ),
{
}

/// Whether, all along a run, every remote tracking SHA read before the
/// rebase disagrees with the recorded local tip.
pub open spec fn diverged_throughout(cfg: RunConfigV, st: StateV, evs: Seq<EventV>) -> bool
    decreases evs.len(),
{
    evs.len() == 0 || st is Done || {
        &&& (st matches StateV::ReadingRemoteShaPre { ctx, local_sha } ==> (evs[0] matches
            EventV::Output { text } ==> text != local_sha))
        &&& diverged_throughout(cfg, next(cfg, st, evs[0]).0, evs.drop_first())
    }
}

/// When the head branch never passes the pre-rebase sync check, a run that
/// has not passed that check issues no rebase and no push of any kind.
pub proof fn lemma_diverged_run_no_rebase_or_push(cfg: RunConfigV, st: StateV, evs: Seq<EventV>)
    requires
        before_rebase(st) || winding_down(st),
        diverged_throughout(cfg, st, evs),
    ensures
        no_rebase_or_push(run_actions(cfg, st, evs)),
    decreases evs.len(),
{
    if evs.len() == 0 || st is Done {
    } else if winding_down(st) {
        lemma_winding_down_run(cfg, st, evs);
    } else {
        let (st2, a) = next(cfg, st, evs[0]);
        assert(!is_rebase_or_push(a));
        assert(before_rebase(st2) || winding_down(st2));
        lemma_diverged_run_no_rebase_or_push(cfg, st2, evs.drop_first());
        assert(run_actions(cfg, st, evs) == seq![a] + run_actions(cfg, st2, evs.drop_first()));
    }
}

/// A run in which the head branch never passes the pre-rebase sync check,
/// taken from the very start, issues no rebase and no push of any kind.
pub proof fn lemma_diverged_run_from_start(cfg: RunConfigV, evs: Seq<EventV>)
    requires
        diverged_throughout(cfg, crate::model::init().0, evs),
    ensures
        no_rebase_or_push(run_actions(cfg, crate::model::init().0, evs)),
{
    lemma_diverged_run_no_rebase_or_push(cfg, crate::model::init().0, evs);
}

/// The name of the ephemeral fork remote a state still holds bound, if any.
pub open spec fn binding_of(st: StateV) -> Option<Seq<char>> {
    match st {
        StateV::AwaitingFirstStatus { binding, .. } => binding,
        StateV::SleepingForCi { binding, .. } => binding,
        StateV::AwaitingPolledStatus { binding, .. } => binding,
        StateV::FetchingHead { ctx } => ctx.binding,
        StateV::CheckingOutLocal { ctx } => ctx.binding,
        StateV::CheckingOutTracking { ctx } => ctx.binding,
        StateV::ReadingLocalShaPre { ctx } => ctx.binding,
        StateV::ReadingRemoteShaPre { ctx, .. } => ctx.binding,
        StateV::FetchingBase { ctx } => ctx.binding,
        StateV::Rebasing { ctx } => ctx.binding,
        StateV::AbortingRebase { ctx } => ctx.binding,
        StateV::ReadingLocalShaPost { ctx } => ctx.binding,
        StateV::ReadingRemoteShaPost { ctx, .. } => ctx.binding,
        StateV::ForcePushing { ctx } => ctx.binding,
        StateV::SleepingAfterPush { ctx } => ctx.binding,
        StateV::CheckingOutBase { ctx } => ctx.binding,
        StateV::Merging { ctx } => ctx.binding,
        StateV::PushingBase { ctx, .. } => ctx.binding,
        StateV::SleepingBeforeRetry { ctx } => ctx.binding,
        StateV::DeletingBranch { binding } => binding,
        _ => None,
    }
}

/// Release of the ephemeral remote: a run that completes from a state still
/// holding a binding has issued the removal of exactly that remote —
/// whichever step the run failed or succeeded at.
pub proof fn lemma_binding_released(cfg: RunConfigV, st: StateV, evs: Seq<EventV>)
    requires
        (binding_of(st) is Some),
        (run_state(cfg, st, evs) is Done),
    ensures
        (exists|k: int|
            0 <= k < run_actions(cfg, st, evs).len() && #[trigger] run_actions(cfg, st, evs)[k]
                == ActionV::RemoveRemote { name: binding_of(st)->0 }),
    decreases evs.len(),
{
    let name = binding_of(st)->0;
    if evs.len() == 0 {
        assert(run_state(cfg, st, evs) == st);
        assert(false);
    }
    let (st2, a) = next(cfg, st, evs[0]);
    let rest = run_actions(cfg, st2, evs.drop_first());
    assert(run_actions(cfg, st, evs) == seq![a] + rest);
    if a == (ActionV::RemoveRemote { name }) {
        assert(run_actions(cfg, st, evs)[0] == a);
    } else {
        assert(binding_of(st2) == binding_of(st));
        lemma_binding_released(cfg, st2, evs.drop_first());
        let k = choose|k: int| 0 <= k < rest.len() && #[trigger] rest[k] == ActionV::RemoveRemote { name };
        assert(run_actions(cfg, st, evs)[k + 1] == rest[k]);
    }
}

/// How many times a trace adds an ephemeral remote.
pub open spec fn count_add_remote(actions: Seq<ActionV>) -> nat
    decreases actions.len(),
{
    if actions.len() == 0 {
        0
    } else {
        (if actions[0] is AddRemote {
            1nat
        } else {
            0nat
        }) + count_add_remote(actions.drop_first())
    }
}

/// States from which an ephemeral remote may still be added: the resolution
/// phase before the addition was asked for.
pub open spec fn may_bind(st: StateV) -> bool {
    match st {
        StateV::CheckingGit => true,
        StateV::CheckingGh => true,
        StateV::ReadingCurrentBranch => true,
        StateV::FetchingRepoView { .. } => true,
        StateV::FetchingDefaultBranch { .. } => true,
        StateV::FetchingPrByNumber { .. } => true,
        StateV::FetchingHeadRepo { .. } => true,
        StateV::FetchingForkUrl { .. } => true,
        _ => false,
    }
}

/// A run asks for at most one ephemeral remote — exactly one binding per
/// run — and none at all once the resolution phase is past.
pub proof fn lemma_at_most_one_add_remote(cfg: RunConfigV, st: StateV, evs: Seq<EventV>)
    ensures
        may_bind(st) ==> count_add_remote(run_actions(cfg, st, evs)) <= 1,
        !may_bind(st) ==> count_add_remote(run_actions(cfg, st, evs)) == 0,
    decreases evs.len(),
{
    if evs.len() == 0 || st is Done {
    } else {
        let (st2, a) = next(cfg, st, evs[0]);
        let rest = run_actions(cfg, st2, evs.drop_first());
        lemma_at_most_one_add_remote(cfg, st2, evs.drop_first());
        assert(run_actions(cfg, st, evs) == seq![a] + rest);
        assert((seq![a] + rest).drop_first() =~= rest);
        assert(a is AddRemote ==> !may_bind(st2));
        assert(!may_bind(st) ==> !(a is AddRemote) && !may_bind(st2));
    }
}

} // verus!
