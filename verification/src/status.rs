//! Worktree status reads and the operation commands.
//!
//! `repo_status` is trust-gated: Git may run content filters when comparing
//! the worktree to the index. Snapshot counts are filled only for trusted
//! sessions and degrade to "unavailable" when the read fails.

use vstd::prelude::*;
use crate::error::{is_error, AppError, ErrorCode, RecoveryAction, RequestId};
use crate::text::string_lit;

verus! {

#[derive(Debug)]
pub struct RepoContext {
    pub request_id: RequestId,
    pub repo_id: String,
}

#[derive(Debug)]
pub struct OperationRequest {
    pub request_id: RequestId,
    pub operation_id: String,
}

#[derive(Debug, Clone, Copy, PartialEq, Eq, Structural)]
pub struct CancelResponse {
    pub cancel_requested: bool,
}

pub fn status_trust_required() -> (e: AppError)
    ensures
        is_error(
            e,
            ErrorCode::TRUST_REQUIRED,
            "Trust this repository to read working changes"@,
            RecoveryAction::InspectState,
            false,
        ),
{
    AppError::new(
        ErrorCode::TRUST_REQUIRED,
        string_lit("Trust this repository to read working changes"),
        RecoveryAction::InspectState,
        false,
    )
}

/// How reading `git status` went wrong.
#[derive(Debug, Clone, Copy, PartialEq, Eq, Structural)]
pub enum StatusFailure {
    TimedOut,
    OutputLimit,
    SpawnFailed,
    GitFailed,
    /// The listing did not parse.
    Malformed,
}

pub fn status_error(error: StatusFailure) -> (e: AppError)
    ensures
        error == StatusFailure::TimedOut ==> is_error(
            e,
            ErrorCode::TIMEOUT,
            "Reading working changes timed out"@,
            RecoveryAction::RetryRead,
            true,
        ),
        error == StatusFailure::OutputLimit ==> is_error(
            e,
            ErrorCode::OUTPUT_LIMIT,
            "Working changes output exceeded the safety bound"@,
            RecoveryAction::RetryRead,
            true,
        ),
        error == StatusFailure::SpawnFailed || error == StatusFailure::GitFailed ==> is_error(
            e,
            ErrorCode::GIT_ERROR,
            "Failed to read working changes"@,
            RecoveryAction::Refresh,
            true,
        ),
        error == StatusFailure::Malformed ==> is_error(
            e,
            ErrorCode::GIT_ERROR,
            "Git returned an unreadable status listing"@,
            RecoveryAction::Refresh,
            true,
        ),
{
    match error {
        StatusFailure::TimedOut => AppError::new(
            ErrorCode::TIMEOUT,
            string_lit("Reading working changes timed out"),
            RecoveryAction::RetryRead,
            true,
        ),
        StatusFailure::OutputLimit => AppError::new(
            ErrorCode::OUTPUT_LIMIT,
            string_lit("Working changes output exceeded the safety bound"),
            RecoveryAction::RetryRead,
            true,
        ),
        StatusFailure::SpawnFailed | StatusFailure::GitFailed => AppError::new(
            ErrorCode::GIT_ERROR,
            string_lit("Failed to read working changes"),
            RecoveryAction::Refresh,
            true,
        ),
        StatusFailure::Malformed => AppError::new(
            ErrorCode::GIT_ERROR,
            string_lit("Git returned an unreadable status listing"),
            RecoveryAction::Refresh,
            true,
        ),
    }
}

/// Staged, unstaged and conflicted counts of one status read.
#[derive(Debug, Clone, Copy, PartialEq, Eq, Structural)]
pub struct StatusCounts {
    pub staged: u64,
    pub unstaged: u64,
    pub conflicted: u64,
}

/// Snapshot counts: filled only for trusted sessions whose status read
/// worked; otherwise all three are unavailable, never a fake zero.
pub fn snapshot_counts(trusted: bool, read: Option<StatusCounts>) -> (r: (
    Option<u64>,
    Option<u64>,
    Option<u64>,
))
    ensures
        match (trusted, read) {
            (true, Some(c)) => r == (Some(c.staged), Some(c.unstaged), Some(c.conflicted)),
            _ => r == (None::<u64>, None::<u64>, None::<u64>),
        },
{
    if !trusted {
        return (None, None, None);
    }
    match read {
        Some(c) => (Some(c.staged), Some(c.unstaged), Some(c.conflicted)),
        None => (None, None, None),
    }
}

} // verus!
