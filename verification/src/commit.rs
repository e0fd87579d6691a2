//! `identity_read` and `commit_create`: commits take exactly the index,
//! with the message passed on stdin; a failed commit keeps the draft.

use vstd::prelude::*;
use crate::error::{bad_request_str, is_error, AppError, ErrorCode, RecoveryAction, RequestId};
use crate::history::{to_lowercase, unicode_lower};
use crate::merge::{merge_message, merge_message_text};
use crate::text::{chars_of, contains_seq, str_contains, str_exceeds, string_lit, trim, trim_str, utf8_len};

verus! {

pub const MAX_SUBJECT_CHARS: usize = 500;

pub const MAX_BODY_BYTES: usize = 65536;

#[derive(Debug)]
pub struct IdentityRequest {
    pub request_id: RequestId,
    pub repo_id: String,
}

#[derive(Debug)]
pub struct CommitCreateRequest {
    pub request_id: RequestId,
    pub repo_id: String,
    pub expected_version: u64,
    pub subject: String,
    pub body: String,
}

/// How running `git commit` went wrong.
#[derive(Debug, Clone, PartialEq, Eq)]
pub enum CommitFailure {
    /// The process outlived its deadline.
    TimedOut,
    /// Output went past the runner's limit.
    OutputLimit,
    /// The process could not be started.
    SpawnFailed,
    /// Git ran and refused; its stderr.
    GitFailed(String),
}

/// A failed commit, classified for guidance; mutations are never retried
/// automatically.
pub open spec fn commit_failure_error(f: CommitFailure) -> (ErrorCode, Seq<char>, RecoveryAction, bool) {
    match f {
        CommitFailure::TimedOut => (
            ErrorCode::TIMEOUT,
            "The commit timed out; inspect history before retrying"@,
            RecoveryAction::InspectState,
            false,
        ),
        CommitFailure::OutputLimit => (
            ErrorCode::OUTPUT_LIMIT,
            "Commit message exceeds the size limit"@,
            RecoveryAction::InspectState,
            false,
        ),
        CommitFailure::SpawnFailed => (
            ErrorCode::GIT_ERROR,
            "Failed to run the commit"@,
            RecoveryAction::Refresh,
            true,
        ),
        CommitFailure::GitFailed(stderr) => {
            let l = unicode_lower(stderr@);
            if contains_seq(l, "gpg"@) || contains_seq(l, "signing"@) || contains_seq(l, "sign"@) {
                (
                    ErrorCode::SIGNING_FAILED,
                    "Commit signing failed; your draft is kept. Check your signing setup, then retry."@,
                    RecoveryAction::InspectState,
                    false,
                )
            } else if contains_seq(l, "hook"@) {
                (
                    ErrorCode::HOOK_FAILED,
                    "A Git hook refused the commit; your draft is kept. Read the hook output, fix it, then retry."@,
                    RecoveryAction::InspectState,
                    false,
                )
            } else {
                (
                    ErrorCode::GIT_ERROR,
                    "The commit failed; your draft is kept."@,
                    RecoveryAction::InspectState,
                    false,
                )
            }
        },
    }
}

pub fn commit_error(error: &CommitFailure) -> (e: AppError)
    ensures
        ({
            let x = commit_failure_error(*error);
            is_error(e, x.0, x.1, x.2, x.3)
        }),
{
    match error {
        CommitFailure::TimedOut => AppError::new(
            ErrorCode::TIMEOUT,
            string_lit("The commit timed out; inspect history before retrying"),
            RecoveryAction::InspectState,
            false,
        ),
        CommitFailure::OutputLimit => AppError::new(
            ErrorCode::OUTPUT_LIMIT,
            string_lit("Commit message exceeds the size limit"),
            RecoveryAction::InspectState,
            false,
        ),
        CommitFailure::SpawnFailed => AppError::new(
            ErrorCode::GIT_ERROR,
            string_lit("Failed to run the commit"),
            RecoveryAction::Refresh,
            true,
        ),
        CommitFailure::GitFailed(stderr) => {
            let l = chars_of(to_lowercase(stderr.as_str()).as_str());
            if str_contains(&l, "gpg") || str_contains(&l, "signing") || str_contains(&l, "sign") {
                AppError::new(
                    ErrorCode::SIGNING_FAILED,
                    string_lit(
                        "Commit signing failed; your draft is kept. Check your signing setup, then retry.",
                    ),
                    RecoveryAction::InspectState,
                    false,
                )
            } else if str_contains(&l, "hook") {
                AppError::new(
                    ErrorCode::HOOK_FAILED,
                    string_lit(
                        "A Git hook refused the commit; your draft is kept. Read the hook output, fix it, then retry.",
                    ),
                    RecoveryAction::InspectState,
                    false,
                )
            } else {
                AppError::new(
                    ErrorCode::GIT_ERROR,
                    string_lit("The commit failed; your draft is kept."),
                    RecoveryAction::InspectState,
                    false,
                )
            }
        },
    }
}

/// The subject (trimmed, 1..=500 chars) and body (64 KiB of bytes at most).
pub open spec fn commit_message_error(subject: Seq<char>, body: Seq<char>) -> Option<Seq<char>> {
    let s = trim(subject);
    if s.len() == 0 {
        Some("Commit subject cannot be empty"@)
    } else if s.len() > MAX_SUBJECT_CHARS {
        Some("Commit subject exceeds 500 characters"@)
    } else if utf8_len(body) > MAX_BODY_BYTES {
        Some("Commit body exceeds 64 KiB"@)
    } else {
        None
    }
}

pub fn check_commit_message(subject: &str, body: &str) -> (r: Result<(), AppError>)
    ensures
        match commit_message_error(subject@, body@) {
            None => r is Ok,
            Some(m) => r matches Err(e) && is_error(
                e,
                ErrorCode::INVALID_ARGUMENT,
                m,
                RecoveryAction::InspectState,
                false,
            ),
        },
{
    let s = trim_str(subject);
    if s.len() == 0 {
        return Err(bad_request_str("Commit subject cannot be empty"));
    }
    if s.len() > MAX_SUBJECT_CHARS {
        return Err(bad_request_str("Commit subject exceeds 500 characters"));
    }
    if str_exceeds(body, MAX_BODY_BYTES) {
        return Err(bad_request_str("Commit body exceeds 64 KiB"));
    }
    Ok(())
}

/// The message handed to `git commit -F -`: trimmed subject, a blank line
/// and the trimmed body when there is one, and a final newline. A subject
/// past 72 chars is a soft guideline, never a reject.
pub fn commit_message_text(subject: &str, body: &str) -> (r: String)
    ensures
        r@ == merge_message(subject@, body@),
{
    merge_message_text(subject, body)
}

/// Unresolved conflicts block a commit.
pub fn check_no_conflicts(unmerged: bool) -> (r: Result<(), AppError>)
    ensures
        r is Ok <==> !unmerged,
        r matches Err(e) ==> is_error(
            e,
            ErrorCode::CONFLICTS_PRESENT,
            "Unresolved conflicts block the commit; resolve them first"@,
            RecoveryAction::ResolveConflict,
            false,
        ),
{
    if unmerged {
        return Err(
            AppError::new(
                ErrorCode::CONFLICTS_PRESENT,
                string_lit("Unresolved conflicts block the commit; resolve them first"),
                RecoveryAction::ResolveConflict,
                false,
            ),
        );
    }
    Ok(())
}

/// An empty index blocks a commit.
pub fn check_index_nonempty(index_empty: bool) -> (r: Result<(), AppError>)
    ensures
        r is Ok <==> !index_empty,
        r matches Err(e) ==> is_error(
            e,
            ErrorCode::EMPTY_INDEX,
            "Nothing is staged; stage files before committing"@,
            RecoveryAction::InspectState,
            false,
        ),
{
    if index_empty {
        return Err(
            AppError::new(
                ErrorCode::EMPTY_INDEX,
                string_lit("Nothing is staged; stage files before committing"),
                RecoveryAction::InspectState,
                false,
            ),
        );
    }
    Ok(())
}

} // verus!
