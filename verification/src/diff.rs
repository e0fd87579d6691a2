//! `diff_read`: worktree and index diffs of trusted repositories, and
//! commit diffs against a chosen parent (read-only, any trust).

use vstd::prelude::*;
use crate::domain::{DiffTarget, TrustState};
use crate::error::{bad_request, bad_request_str, is_error, AppError, ErrorCode, RecoveryAction, RequestId};
use crate::stage::DiffFailure;
use crate::text::string_lit;

verus! {

#[derive(Debug)]
pub struct DiffReadRequest {
    pub request_id: RequestId,
    pub repo_id: String,
    pub target: DiffTarget,
}

/// Working-copy diffs run filters and textconv, so they need trust.
pub fn check_diff_trust(target: &DiffTarget, trust: TrustState) -> (r: Result<(), AppError>)
    ensures
        r is Ok <==> (target is Commit || trust == TrustState::Trusted),
        r matches Err(e) ==> is_error(
            e,
            ErrorCode::TRUST_REQUIRED,
            "Trust this repository to read working-copy diffs"@,
            RecoveryAction::InspectState,
            false,
        ),
{
    match target {
        DiffTarget::Commit { .. } => Ok(()),
        _ => {
            if trust != TrustState::Trusted {
                return Err(
                    AppError::new(
                        ErrorCode::TRUST_REQUIRED,
                        string_lit("Trust this repository to read working-copy diffs"),
                        RecoveryAction::InspectState,
                        false,
                    ),
                );
            }
            Ok(())
        },
    }
}

/// The error of a diff that could not be read.
pub fn diff_error(error: DiffFailure) -> (e: AppError)
    ensures
        match error {
            DiffFailure::TooLarge => is_error(
                e,
                ErrorCode::OUTPUT_LIMIT,
                "Diff exceeds the size limit; open the file externally."@,
                RecoveryAction::InspectState,
                false,
            ),
            DiffFailure::Invalid(m) => is_error(
                e,
                ErrorCode::INVALID_ARGUMENT,
                m@,
                RecoveryAction::InspectState,
                false,
            ),
            DiffFailure::GitFailed | DiffFailure::SpawnFailed => is_error(
                e,
                ErrorCode::GIT_ERROR,
                "Failed to read this diff."@,
                RecoveryAction::Refresh,
                true,
            ),
            DiffFailure::TimedOut => is_error(
                e,
                ErrorCode::TIMEOUT,
                "Reading the diff timed out."@,
                RecoveryAction::RetryRead,
                true,
            ),
            DiffFailure::OutputLimit => is_error(
                e,
                ErrorCode::OUTPUT_LIMIT,
                "Diff output exceeded the safety bound."@,
                RecoveryAction::RetryRead,
                true,
            ),
        },
{
    match error {
        DiffFailure::TooLarge => AppError::new(
            ErrorCode::OUTPUT_LIMIT,
            string_lit("Diff exceeds the size limit; open the file externally."),
            RecoveryAction::InspectState,
            false,
        ),
        DiffFailure::Invalid(message) => bad_request(message),
        DiffFailure::GitFailed | DiffFailure::SpawnFailed => AppError::new(
            ErrorCode::GIT_ERROR,
            string_lit("Failed to read this diff."),
            RecoveryAction::Refresh,
            true,
        ),
        DiffFailure::TimedOut => AppError::new(
            ErrorCode::TIMEOUT,
            string_lit("Reading the diff timed out."),
            RecoveryAction::RetryRead,
            true,
        ),
        DiffFailure::OutputLimit => AppError::new(
            ErrorCode::OUTPUT_LIMIT,
            string_lit("Diff output exceeded the safety bound."),
            RecoveryAction::RetryRead,
            true,
        ),
    }
}

/// The parent a commit diff compares against: the requested one when it
/// exists, else the first; a root commit has none.
pub open spec fn parent_choice(requested: Option<usize>, nparents: nat) -> Option<Option<usize>> {
    match requested {
        None => if nparents == 0 {
            Some(None)
        } else {
            Some(Some(0usize))
        },
        Some(i) => if i < nparents {
            Some(Some(i))
        } else {
            None
        },
    }
}

pub fn choose_parent(requested: Option<usize>, nparents: usize) -> (r: Result<Option<usize>, AppError>)
    ensures
        match parent_choice(requested, nparents as nat) {
            Some(p) => r == Ok::<Option<usize>, AppError>(p),
            None => r matches Err(e) && is_error(
                e,
                ErrorCode::INVALID_ARGUMENT,
                "Parent index is out of range"@,
                RecoveryAction::InspectState,
                false,
            ),
        },
{
    match requested {
        None => {
            if nparents == 0 {
                Ok(None)
            } else {
                Ok(Some(0))
            }
        },
        Some(i) => {
            if i < nparents {
                Ok(Some(i))
            } else {
                Err(bad_request_str("Parent index is out of range"))
            }
        },
    }
}

} // verus!
