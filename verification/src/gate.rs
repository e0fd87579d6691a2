//! Preconditions shared by every mutating command: the write context
//! (open session, trusted, expected version), object-id shape, and the
//! decisions taken on what Git reported about HEAD, the worktree and
//! in-progress operations.

use vstd::prelude::*;
use crate::domain::TrustState;
use crate::error::{
    bad_request_str, is_error, stale_state, session_missing, trust_required, unsupported, AppError,
    ErrorCode, RecoveryAction,
};
use crate::text::{all_hex, chars_of, concat2, concat3, every_hex, str_eq, string_lit, trim, trim_str};

verus! {

/// What the write gate reads of an open repository session.
#[derive(Debug, Clone, PartialEq, Eq)]
pub struct SessionInfo {
    pub trust: TrustState,
    pub version: u64,
    /// `sha1` or `sha256`.
    pub object_format: String,
}

/// Every mutation first needs an open session that is trusted and still at
/// the version the caller read.
pub open spec fn write_context_error(
    session: Option<SessionInfo>,
    expected_version: u64,
    action: Seq<char>,
) -> Option<(ErrorCode, Seq<char>, RecoveryAction, bool)> {
    match session {
        None => Some(
            (
                ErrorCode::REPO_UNAVAILABLE,
                "Repository session is no longer open"@,
                RecoveryAction::ChooseRepository,
                false,
            ),
        ),
        Some(s) => if s.trust != TrustState::Trusted {
            Some(
                (
                    ErrorCode::TRUST_REQUIRED,
                    "Trust this repository to "@ + action,
                    RecoveryAction::InspectState,
                    false,
                ),
            )
        } else if s.version != expected_version {
            Some(
                (
                    ErrorCode::STALE_STATE,
                    "The repository changed under you; refresh and retry"@,
                    RecoveryAction::Refresh,
                    false,
                ),
            )
        } else {
            None
        },
    }
}

/// `r` is `Ok` exactly when `err` is `None`, and otherwise the error it names.
pub open spec fn fails_with<T>(
    r: Result<T, AppError>,
    err: Option<(ErrorCode, Seq<char>, RecoveryAction, bool)>,
) -> bool {
    match err {
        None => r is Ok,
        Some(x) => r matches Err(e) && is_error(e, x.0, x.1, x.2, x.3),
    }
}

pub fn check_write_context(session: Option<&SessionInfo>, expected_version: u64, action: &str) -> (r:
    Result<(), AppError>)
    ensures
        fails_with(
            r,
            write_context_error(
                match session {
                    Some(s) => Some(*s),
                    None => None,
                },
                expected_version,
                action@,
            ),
        ),
{
    match session {
        None => Err(session_missing()),
        Some(s) => {
            if s.trust != TrustState::Trusted {
                return Err(trust_required(action));
            }
            if s.version != expected_version {
                return Err(stale_state());
            }
            Ok(())
        },
    }
}

/// Hex digits of an object id for the session's object format.
pub open spec fn oid_len_for(object_format: Seq<char>) -> nat {
    if object_format == "sha256"@ {
        64
    } else {
        40
    }
}

pub open spec fn oid_ok(object_format: Seq<char>, oid: Seq<char>) -> bool {
    oid.len() == oid_len_for(object_format) && all_hex(oid)
}

pub fn check_oid(object_format: &str, oid: &str) -> (r: Result<(), AppError>)
    ensures
        r is Ok <==> oid_ok(object_format@, oid@),
        r matches Err(e) ==> is_error(
            e,
            ErrorCode::INVALID_ARGUMENT,
            "Malformed object id"@,
            RecoveryAction::InspectState,
            false,
        ),
{
    let expected: usize = if str_eq(object_format, "sha256") {
        64
    } else {
        40
    };
    let v = chars_of(oid);
    if v.len() == expected && every_hex(&v) {
        Ok(())
    } else {
        Err(bad_request_str("Malformed object id"))
    }
}

/// The commit behind an object id was garbage collected or never existed.
pub fn missing_commit_error() -> (e: AppError)
    ensures
        is_error(
            e,
            ErrorCode::REF_INVALID,
            "This commit is no longer in the repository; refresh and retry"@,
            RecoveryAction::Refresh,
            true,
        ),
{
    AppError::new(
        ErrorCode::REF_INVALID,
        string_lit("This commit is no longer in the repository; refresh and retry"),
        RecoveryAction::Refresh,
        true,
    )
}

/// `git cat-file -t` must name a commit, not a blob, tree or tag.
pub fn check_commit_kind(kind_stdout: &str) -> (r: Result<(), AppError>)
    ensures
        r is Ok <==> trim(kind_stdout@) == "commit"@,
        r matches Err(e) ==> is_error(
            e,
            ErrorCode::INVALID_ARGUMENT,
            "The selected object is not a commit"@,
            RecoveryAction::InspectState,
            false,
        ),
{
    let k = trim_str(kind_stdout);
    let commit = chars_of("commit");
    if crate::text::seq_eq(&k, &commit) {
        Ok(())
    } else {
        Err(bad_request_str("The selected object is not a commit"))
    }
}

/// `git rev-parse HEAD`: its trimmed output, or the unborn-branch error.
pub fn head_oid_result(success: bool, stdout: &str) -> (r: Result<Vec<char>, AppError>)
    ensures
        success ==> (r matches Ok(h) && h@ == trim(stdout@)),
        !success ==> (r matches Err(e) && is_error(
            e,
            ErrorCode::INVALID_ARGUMENT,
            "This repository has no commits yet"@,
            RecoveryAction::InspectState,
            false,
        )),
{
    if !success {
        return Err(bad_request_str("This repository has no commits yet"));
    }
    Ok(trim_str(stdout))
}

/// `git symbolic-ref --short HEAD`: the branch name, or the error for a
/// detached or unborn HEAD.
pub fn head_branch_result(success: bool, stdout: &str) -> (r: Result<Vec<char>, AppError>)
    ensures
        success ==> (r matches Ok(b) && b@ == trim(stdout@)),
        !success ==> (r matches Err(e) && is_error(
            e,
            ErrorCode::INVALID_ARGUMENT,
            "Start from a branch HEAD; detached and unborn states cannot start this operation"@,
            RecoveryAction::InspectState,
            false,
        )),
{
    if !success {
        return Err(
            bad_request_str(
                "Start from a branch HEAD; detached and unborn states cannot start this operation",
            ),
        );
    }
    Ok(trim_str(stdout))
}

/// No new history operation starts while a merge or a rebase is running.
pub fn check_no_merge_or_rebase(merge_live: bool, rebase_live: bool) -> (r: Result<(), AppError>)
    ensures
        r is Ok <==> !merge_live && !rebase_live,
        merge_live ==> (r matches Err(e) && is_error(
            e,
            ErrorCode::CONFLICTS_PRESENT,
            "A merge is already in progress; complete or abort it first"@,
            RecoveryAction::ResolveConflict,
            false,
        )),
        !merge_live && rebase_live ==> (r matches Err(e) && is_error(
            e,
            ErrorCode::CONFLICTS_PRESENT,
            "A rebase is already in progress; finish it in a terminal (git rebase --continue/--abort) first"@,
            RecoveryAction::InspectState,
            false,
        )),
{
    if merge_live {
        return Err(
            AppError::new(
                ErrorCode::CONFLICTS_PRESENT,
                string_lit("A merge is already in progress; complete or abort it first"),
                RecoveryAction::ResolveConflict,
                false,
            ),
        );
    }
    if rebase_live {
        return Err(
            AppError::new(
                ErrorCode::CONFLICTS_PRESENT,
                string_lit(
                    "A rebase is already in progress; finish it in a terminal (git rebase --continue/--abort) first",
                ),
                RecoveryAction::InspectState,
                false,
            ),
        );
    }
    Ok(())
}

/// "{what} needs a clean worktree; stash or commit first" unless nothing is
/// staged, modified or conflicted.
pub fn check_clean(staged: u64, unstaged: u64, conflicted: u64, what: &str) -> (r: Result<
    (),
    AppError,
>)
    ensures
        r is Ok <==> staged == 0 && unstaged == 0 && conflicted == 0,
        r matches Err(e) ==> is_error(
            e,
            ErrorCode::DIRTY_WORKTREE,
            what@ + " needs a clean worktree; stash or commit first"@,
            RecoveryAction::InspectState,
            false,
        ),
{
    if staged != 0 || unstaged != 0 || conflicted != 0 {
        return Err(
            AppError::new(
                ErrorCode::DIRTY_WORKTREE,
                concat2(what, " needs a clean worktree; stash or commit first"),
                RecoveryAction::InspectState,
                false,
            ),
        );
    }
    Ok(())
}

/// `git check-ref-format` accepted the name, or the caller's message.
pub fn check_ref_format(runner_out_success: bool, what: &str) -> (r: Result<(), AppError>)
    ensures
        r is Ok <==> runner_out_success,
        r matches Err(e) ==> is_error(
            e,
            ErrorCode::INVALID_ARGUMENT,
            what@,
            RecoveryAction::InspectState,
            false,
        ),
{
    if runner_out_success {
        Ok(())
    } else {
        Err(bad_request_str(what))
    }
}

/// The amend family works on HEAD only.
pub fn require_head_oid(head: &str, oid: &str, action: &str) -> (r: Result<(), AppError>)
    ensures
        r is Ok <==> head@ == oid@,
        r matches Err(e) ==> is_error(
            e,
            ErrorCode::UNSUPPORTED,
            action@ + " supports only HEAD in v1; older commits go through Interactive rebase"@,
            RecoveryAction::InspectState,
            false,
        ),
{
    if !str_eq(head, oid) {
        let msg = concat2(
            action,
            " supports only HEAD in v1; older commits go through Interactive rebase",
        );
        return Err(unsupported(msg.as_str()));
    }
    Ok(())
}

} // verus!
