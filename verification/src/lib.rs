//! Verified command logic of the Octopus Git desktop client: request
//! validation, error envelopes, remote URL parsing, history paging, the
//! operation coordinator, the unmerged index reader and the conflict
//! inspector's classification rules.

pub mod text;
pub mod num;
pub mod error;
pub mod preflight;
pub mod remote;
pub mod pull_request;
pub mod jobs;
pub mod registry;
pub mod domain;
pub mod gate;
pub mod lines;
pub mod history_actions;
pub mod rebase_flow;
pub mod merge;
pub mod unmerged;
pub mod merge_flow;
pub mod commit_merge_flow;
pub mod history;
pub mod stash;
pub mod stash_flow;
pub mod branch;
pub mod confirmation_flow;
pub mod branch_flow;
pub mod commit;
pub mod commit_flow;
pub mod stage;
pub mod diff;
pub mod repos;
pub mod status;
pub mod settings;
pub mod sync;
pub mod pr_flow;
pub mod bitbucket_flow;
pub mod remote_job;
pub mod sync_flow;
pub mod civil;
