//! A resolved pull-request reference: the head branch and, when the head
//! lives in a fork, the fork owner's login.

use vstd::prelude::*;
use vstd::string::StringExecFns;

verus! {

/// A fully resolved reference to the pull request's head.
#[derive(Debug, PartialEq, Eq)]
pub struct PrRef {
    /// Unqualified name of the head branch.
    pub branch: String,
    /// Login of the fork owner; present only when the head repository
    /// differs from the current repository.
    pub fork_owner: Option<String>,
}

/// Mathematical model of a [`PrRef`].
pub struct PrRefV {
    pub branch: Seq<char>,
    pub fork_owner: Option<Seq<char>>,
}

impl View for PrRef {
    type V = PrRefV;

    open spec fn view(&self) -> PrRefV {
        PrRefV {
            branch: self.branch@,
            fork_owner: match self.fork_owner {
                Some(o) => Some(o@),
                None => None,
            },
        }
    }
}

/// The token the platform's PR lookup accepts: `owner:branch` for a fork,
/// the bare branch name otherwise.
pub open spec fn qualified_of(r: PrRefV) -> Seq<char> {
    match r.fork_owner {
        Some(owner) => owner + ":"@ + r.branch,
        None => r.branch,
    }
}

/// The remote the head branch is fetched from and force-pushed to: the
/// ephemeral fork remote (named after the fork owner) when the head lives in
/// a fork, else the configured default remote.
pub open spec fn head_remote_of(r: PrRefV, default_remote: Seq<char>) -> Seq<char> {
    match r.fork_owner {
        Some(owner) => owner,
        None => default_remote,
    }
}

impl PrRef {
    /// A reference to a branch of the current repository, with no fork.
    pub fn from_branch(branch: String) -> (r: PrRef)
        ensures
            r@.branch == branch@,
            r@.fork_owner is None,
    {
        PrRef { branch, fork_owner: None }
    }

    /// Builds the qualified lookup token for this reference.
    pub fn qualified_branch(&self) -> (r: String)
        ensures
            r@ == qualified_of(self@),
    {
        match &self.fork_owner {
            Some(owner) => {
                let mut s = owner.clone();
                s.append(":");
                s.append(self.branch.as_str());
                s
            },
            None => self.branch.clone(),
        }
    }
}

} // verus!
