//! Decision core of a tool that merges an approved, CI-green pull request
//! into its base branch while keeping a strictly linear history.
//!
//! The library models the whole orchestration as an explicit state machine:
//! [`engine::start`] yields the first external command to run, and
//! [`engine::step`] consumes the outcome of each command ([`engine::Event`])
//! and decides the next one ([`engine::Action`]). Every transition is proved
//! equal to the mathematical transition relation in [`model`], and the trace
//! lemmas in [`run`] establish the safety guarantees of the protocol: no
//! repository mutation before the approval and CI gates, none at all under
//! dry-run, no rebase or push after a diverged sync check, and release of the
//! ephemeral fork remote on every terminal path.
//!
//! Running the commands (git, the hosting platform's CLI) is left to a thin
//! unverified driver that answers each [`engine::Action`] with an
//! [`engine::Event`].

pub mod config;
pub mod engine;
pub mod errors;
pub mod model;
pub mod reference;
pub mod run;
pub mod status;
pub mod text;
