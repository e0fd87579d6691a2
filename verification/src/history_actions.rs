//! Commit-row history actions: checkout, tag, push a commit, cherry-pick,
//! revert, merge a commit, rebase, the HEAD-scoped amend family, move to a
//! branch, resets and the scripted interactive rebase.
//!
//! Git is run by the caller; these functions validate the request, build
//! the text handed to Git, and decide what each Git outcome means.

use vstd::prelude::*;
use crate::text::{string_views};
use crate::domain::RefItem;
use crate::error::{bad_request_str, git_failed, is_error, AppError, ErrorCode, RecoveryAction, RequestId};
use crate::lines::{any_line_equals, any_line_is, trimmed_lines, trimmed_lines_vec, view_lines};
use crate::num::{dec, dec_string};
use crate::text::{
    chars_of, concat2, concat3, contains_char, contains_seq, lower, lower_seq, seq_eq, str_contains,
    str_eq, str_exceeds, string_lit, string_of, trim, trim_str, utf8_len,
};

verus! {

#[derive(Debug)]
pub struct HistoryCheckoutRequest {
    pub request_id: RequestId,
    pub repo_id: String,
    pub expected_version: u64,
    pub oid: String,
}

#[derive(Debug)]
pub struct TagCreateAtRequest {
    pub request_id: RequestId,
    pub repo_id: String,
    pub expected_version: u64,
    pub oid: String,
    pub name: String,
}

#[derive(Debug)]
pub struct HistoryPushToRequest {
    pub request_id: RequestId,
    pub repo_id: String,
    pub expected_version: u64,
    pub oid: String,
    pub remote: String,
    pub dest_branch: String,
}

#[derive(Debug)]
pub struct HistoryOidRequest {
    pub request_id: RequestId,
    pub repo_id: String,
    pub expected_version: u64,
    pub oid: String,
}

#[derive(Debug)]
pub struct RebaseOntoRequest {
    pub request_id: RequestId,
    pub repo_id: String,
    pub expected_version: u64,
    pub oid: String,
    pub confirmation_token: String,
}

#[derive(Debug)]
pub struct RewordRequest {
    pub request_id: RequestId,
    pub repo_id: String,
    pub expected_version: u64,
    pub oid: String,
    pub subject: String,
    pub body: String,
}

#[derive(Debug)]
pub struct EditAuthorRequest {
    pub request_id: RequestId,
    pub repo_id: String,
    pub expected_version: u64,
    pub oid: String,
    pub name: String,
    pub email: String,
}

#[derive(Debug)]
pub struct SplitRequest {
    pub request_id: RequestId,
    pub repo_id: String,
    pub expected_version: u64,
    pub oid: String,
    pub confirmation_token: String,
}

#[derive(Debug)]
pub struct MoveToBranchRequest {
    pub request_id: RequestId,
    pub repo_id: String,
    pub expected_version: u64,
    pub oid: String,
    pub name: String,
    pub switch_after_create: bool,
}

#[derive(Debug)]
pub struct ResetHardRequest {
    pub request_id: RequestId,
    pub repo_id: String,
    pub expected_version: u64,
    pub oid: String,
    pub confirmation_token: String,
}

/// One line of an interactive-rebase plan.
#[derive(Debug, Clone, PartialEq, Eq)]
pub struct RebasePlanEntry {
    pub oid: String,
    pub action: String,
    pub message: Option<String>,
}

#[derive(Debug)]
pub struct RebaseInteractiveRequest {
    pub request_id: RequestId,
    pub repo_id: String,
    pub expected_version: u64,
    pub oid: String,
    pub plan: Vec<RebasePlanEntry>,
    pub confirmation_token: String,
}

// ---------------------------------------------------------------------------
// Tags
// ---------------------------------------------------------------------------

/// A tag name after trimming: 1..=250 bytes, not starting with `-`,
/// without `..` or spaces. `Err` carries which rule failed.
pub open spec fn tag_name_error(name: Seq<char>) -> Option<Seq<char>> {
    let t = trim(name);
    if t.len() == 0 || utf8_len(t) > 250 {
        Some("Tag name must be 1..=250 characters"@)
    } else if t[0] == '-' || contains_seq(t, ".."@) || contains_seq(t, " "@) {
        Some("Tag name is not a valid ref name"@)
    } else {
        None
    }
}

pub fn check_tag_name(name: &str) -> (r: Result<Vec<char>, AppError>)
    ensures
        match tag_name_error(name@) {
            None => r matches Ok(t) && t@ == trim(name@),
            Some(m) => r matches Err(e) && is_error(
                e,
                ErrorCode::INVALID_ARGUMENT,
                m,
                RecoveryAction::InspectState,
                false,
            ),
        },
{
    let t = trim_str(name);
    if t.len() == 0 || crate::text::utf8_len_exceeds(&t, 250) {
        return Err(bad_request_str("Tag name must be 1..=250 characters"));
    }
    if t[0] == '-' || str_contains(&t, "..") || str_contains(&t, " ") {
        return Err(bad_request_str("Tag name is not a valid ref name"));
    }
    Ok(t)
}

/// `refs/tags/{name}`, the full ref handed to `git check-ref-format`.
pub fn tag_ref(name: &str) -> (r: String)
    ensures
        r@ == "refs/tags/"@ + name@,
{
    concat2("refs/tags/", name)
}

/// What a failed `git tag` means.
pub fn tag_create_failure(stderr: &str) -> (e: AppError)
    ensures
        contains_seq(stderr@, "already exists"@) ==> is_error(
            e,
            ErrorCode::INVALID_ARGUMENT,
            "A tag with this name already exists"@,
            RecoveryAction::InspectState,
            false,
        ),
        !contains_seq(stderr@, "already exists"@) ==> is_error(
            e,
            ErrorCode::GIT_ERROR,
            "Git could not "@ + "create the tag"@,
            RecoveryAction::Refresh,
            true,
        ),
{
    if str_contains(&chars_of(stderr), "already exists") {
        bad_request_str("A tag with this name already exists")
    } else {
        git_failed("create the tag")
    }
}

// ---------------------------------------------------------------------------
// Pushing one commit to an explicit remote branch
// ---------------------------------------------------------------------------

/// The trimmed remote and destination, each 1..=250 bytes.
pub fn check_push_target(remote: &str, dest_branch: &str) -> (r: Result<
    (Vec<char>, Vec<char>),
    AppError,
>)
    ensures
        ({
            let rm = trim(remote@);
            let d = trim(dest_branch@);
            if rm.len() == 0 || utf8_len(rm) > 250 {
                r matches Err(e) && is_error(
                    e,
                    ErrorCode::INVALID_ARGUMENT,
                    "Choose an explicit remote to push to"@,
                    RecoveryAction::InspectState,
                    false,
                )
            } else if d.len() == 0 || utf8_len(d) > 250 {
                r matches Err(e) && is_error(
                    e,
                    ErrorCode::INVALID_ARGUMENT,
                    "Choose an explicit destination branch"@,
                    RecoveryAction::InspectState,
                    false,
                )
            } else {
                r matches Ok(p) && p.0@ == rm && p.1@ == d
            }
        }),
{
    let rm = trim_str(remote);
    if rm.len() == 0 || crate::text::utf8_len_exceeds(&rm, 250) {
        return Err(bad_request_str("Choose an explicit remote to push to"));
    }
    let d = trim_str(dest_branch);
    if d.len() == 0 || crate::text::utf8_len_exceeds(&d, 250) {
        return Err(bad_request_str("Choose an explicit destination branch"));
    }
    Ok((rm, d))
}

/// `refs/heads/{branch}`.
pub fn heads_ref(branch: &str) -> (r: String)
    ensures
        r@ == "refs/heads/"@ + branch@,
{
    concat2("refs/heads/", branch)
}

/// The remote must be one of the names `git remote` listed.
pub fn check_remote_known(remotes_stdout: &str, remote: &str) -> (r: Result<(), AppError>)
    ensures
        r is Ok <==> any_line_is(remotes_stdout@, remote@),
        r matches Err(e) ==> is_error(
            e,
            ErrorCode::INVALID_ARGUMENT,
            "Unknown remote; fetch the remote list and retry"@,
            RecoveryAction::InspectState,
            false,
        ),
{
    if !any_line_equals(&chars_of(remotes_stdout), &chars_of(remote)) {
        return Err(bad_request_str("Unknown remote; fetch the remote list and retry"));
    }
    Ok(())
}

/// `{oid}:refs/heads/{dest}`: pushes exactly that commit, never forced.
pub fn push_refspec(oid: &str, dest: &str) -> (r: String)
    ensures
        r@ == oid@ + ":refs/heads/"@ + dest@,
{
    concat3(oid, ":refs/heads/", dest)
}

pub open spec fn mentions(lowered: Seq<char>, needle: Seq<char>) -> bool {
    contains_seq(lowered, needle)
}

/// How `git push` stderr is classified, case-insensitively.
pub open spec fn push_failure_kind(stderr: Seq<char>) -> int {
    let l = lower_seq(stderr);
    if mentions(l, "authentication failed"@) || mentions(l, "permission denied"@) || mentions(
        l,
        "401"@,
    ) || mentions(l, "403"@) || mentions(l, "invalid username"@) || mentions(
        l,
        "could not read username"@,
    ) {
        0
    } else if mentions(l, "could not resolve"@) || mentions(l, "network"@) || mentions(
        l,
        "timed out"@,
    ) || mentions(l, "connection refused"@) || mentions(l, "connection reset"@) {
        1
    } else if mentions(l, "non-fast-forward"@) || mentions(l, "fetch first"@) {
        2
    } else {
        3
    }
}

/// The error for a failed push; `action` names it when no rule matches.
pub fn push_error_for(stderr: &str, action: &str) -> (e: AppError)
    ensures
        push_failure_kind(stderr@) == 0 ==> is_error(
            e,
            ErrorCode::AUTH_REQUIRED,
            "The remote rejected the credentials; refresh the token or unlock the SSH agent, then retry"@,
            RecoveryAction::Authenticate,
            true,
        ),
        push_failure_kind(stderr@) == 1 ==> is_error(
            e,
            ErrorCode::NETWORK_ERROR,
            "The network request to the remote failed; check connectivity and retry"@,
            RecoveryAction::RetryRead,
            true,
        ),
        push_failure_kind(stderr@) == 2 ==> is_error(
            e,
            ErrorCode::DIVERGED,
            "The remote branch moved ahead; fetch and merge before pushing"@,
            RecoveryAction::Refresh,
            true,
        ),
        push_failure_kind(stderr@) == 3 ==> is_error(
            e,
            ErrorCode::GIT_ERROR,
            "Git could not "@ + action@,
            RecoveryAction::Refresh,
            true,
        ),
{
    let l = lower(&chars_of(stderr));
    if str_contains(&l, "authentication failed") || str_contains(&l, "permission denied")
        || str_contains(&l, "401") || str_contains(&l, "403") || str_contains(
        &l,
        "invalid username",
    ) || str_contains(&l, "could not read username") {
        return AppError::new(
            ErrorCode::AUTH_REQUIRED,
            string_lit(
                "The remote rejected the credentials; refresh the token or unlock the SSH agent, then retry",
            ),
            RecoveryAction::Authenticate,
            true,
        );
    }
    if str_contains(&l, "could not resolve") || str_contains(&l, "network") || str_contains(
        &l,
        "timed out",
    ) || str_contains(&l, "connection refused") || str_contains(&l, "connection reset") {
        return AppError::new(
            ErrorCode::NETWORK_ERROR,
            string_lit("The network request to the remote failed; check connectivity and retry"),
            RecoveryAction::RetryRead,
            true,
        );
    }
    if str_contains(&l, "non-fast-forward") || str_contains(&l, "fetch first") {
        return AppError::new(
            ErrorCode::DIVERGED,
            string_lit("The remote branch moved ahead; fetch and merge before pushing"),
            RecoveryAction::Refresh,
            true,
        );
    }
    git_failed(action)
}

/// A failed `git push` of one commit.
pub fn push_terminal_error(stderr: &str) -> (e: AppError)
    ensures
        push_failure_kind(stderr@) == 0 ==> is_error(
            e,
            ErrorCode::AUTH_REQUIRED,
            "The remote rejected the credentials; refresh the token or unlock the SSH agent, then retry"@,
            RecoveryAction::Authenticate,
            true,
        ),
        push_failure_kind(stderr@) == 1 ==> is_error(
            e,
            ErrorCode::NETWORK_ERROR,
            "The network request to the remote failed; check connectivity and retry"@,
            RecoveryAction::RetryRead,
            true,
        ),
        push_failure_kind(stderr@) == 2 ==> is_error(
            e,
            ErrorCode::DIVERGED,
            "The remote branch moved ahead; fetch and merge before pushing"@,
            RecoveryAction::Refresh,
            true,
        ),
        push_failure_kind(stderr@) == 3 ==> is_error(
            e,
            ErrorCode::GIT_ERROR,
            "Git could not "@ + "push the commit"@,
            RecoveryAction::Refresh,
            true,
        ),
{
    push_error_for(stderr, "push the commit")
}

// ---------------------------------------------------------------------------
// Cherry-pick and revert (staged with --no-commit)
// ---------------------------------------------------------------------------

/// A failed `cherry-pick --no-commit`: the error to report, and whether the
/// sequencer must be left with `cherry-pick --quit` first.
pub fn cherry_pick_failure(conflicted: u64, stderr: &str) -> (r: (AppError, bool))
    ensures
        conflicted > 0 ==> !r.1 && is_error(
            r.0,
            ErrorCode::CONFLICTS_PRESENT,
            "The cherry-pick stopped on conflicts; resolve them, then commit the staged result"@,
            RecoveryAction::ResolveConflict,
            false,
        ),
        conflicted == 0 && (contains_seq(stderr@, "is empty"@) || contains_seq(
            stderr@,
            "nothing to commit"@,
        )) ==> r.1 && is_error(
            r.0,
            ErrorCode::INVALID_ARGUMENT,
            "This commit introduces no changes on top of HEAD"@,
            RecoveryAction::InspectState,
            false,
        ),
        conflicted == 0 && !contains_seq(stderr@, "is empty"@) && !contains_seq(
            stderr@,
            "nothing to commit"@,
        ) ==> r.1 && is_error(
            r.0,
            ErrorCode::GIT_ERROR,
            "Git could not "@ + "cherry-pick the commit"@,
            RecoveryAction::Refresh,
            true,
        ),
{
    if conflicted > 0 {
        return (
            AppError::new(
                ErrorCode::CONFLICTS_PRESENT,
                string_lit(
                    "The cherry-pick stopped on conflicts; resolve them, then commit the staged result",
                ),
                RecoveryAction::ResolveConflict,
                false,
            ),
            false,
        );
    }
    let d = chars_of(stderr);
    if str_contains(&d, "is empty") || str_contains(&d, "nothing to commit") {
        return (bad_request_str("This commit introduces no changes on top of HEAD"), true);
    }
    (git_failed("cherry-pick the commit"), true)
}

/// Reverting HEAD itself would produce an empty change.
pub fn check_revert_target(head: &str, oid: &str) -> (r: Result<(), AppError>)
    ensures
        r is Ok <==> head@ != oid@,
        r matches Err(e) ==> is_error(
            e,
            ErrorCode::INVALID_ARGUMENT,
            "Reverting HEAD would empty itself; reset or amend instead"@,
            RecoveryAction::InspectState,
            false,
        ),
{
    if str_eq(head, oid) {
        return Err(bad_request_str("Reverting HEAD would empty itself; reset or amend instead"));
    }
    Ok(())
}

/// A failed `revert --no-commit`: the error, and whether `revert --quit`
/// runs first.
pub fn revert_failure(conflicted: u64) -> (r: (AppError, bool))
    ensures
        conflicted > 0 ==> !r.1 && is_error(
            r.0,
            ErrorCode::CONFLICTS_PRESENT,
            "The revert stopped on conflicts; resolve them, then commit the staged result"@,
            RecoveryAction::ResolveConflict,
            false,
        ),
        conflicted == 0 ==> r.1 && is_error(
            r.0,
            ErrorCode::GIT_ERROR,
            "Git could not "@ + "revert the commit"@,
            RecoveryAction::Refresh,
            true,
        ),
{
    if conflicted > 0 {
        return (
            AppError::new(
                ErrorCode::CONFLICTS_PRESENT,
                string_lit(
                    "The revert stopped on conflicts; resolve them, then commit the staged result",
                ),
                RecoveryAction::ResolveConflict,
                false,
            ),
            false,
        );
    }
    (git_failed("revert the commit"), true)
}

// ---------------------------------------------------------------------------
// Merging a commit into the current branch
// ---------------------------------------------------------------------------

/// `git merge-base HEAD <oid>` found no common ancestor.
pub fn check_related_histories(merge_base_success: bool) -> (r: Result<(), AppError>)
    ensures
        r is Ok <==> merge_base_success,
        r matches Err(e) ==> is_error(
            e,
            ErrorCode::INVALID_ARGUMENT,
            "Unrelated histories are never merged automatically"@,
            RecoveryAction::InspectState,
            false,
        ),
{
    if !merge_base_success {
        return Err(bad_request_str("Unrelated histories are never merged automatically"));
    }
    Ok(())
}

/// `commit <first seven hex digits>`, the merge source label.
pub fn commit_source_label(oid: &str) -> (r: String)
    requires
        crate::text::all_hex(oid@),
    ensures
        r@ == "commit "@ + oid@.take(if oid@.len() < 7 {
            oid@.len() as int
        } else {
            7
        }),
{
    let v = chars_of(oid);
    let n: usize = if v.len() < 7 {
        v.len()
    } else {
        7
    };
    let head = crate::text::slice_of(&v, 0, n);
    assert(head@ =~= oid@.take(n as int));
    let h = string_of(head.as_slice());
    concat2("commit ", h.as_str())
}

/// The merge stopped on conflicts: the app-origin flow continues with
/// `merge_complete` / `merge_abort`.
pub fn merge_commit_conflicts() -> (e: AppError)
    ensures
        is_error(
            e,
            ErrorCode::CONFLICTS_PRESENT,
            "The merge stopped on conflicts; resolve them, then complete the merge"@,
            RecoveryAction::ResolveConflict,
            false,
        ),
{
    AppError::new(
        ErrorCode::CONFLICTS_PRESENT,
        string_lit("The merge stopped on conflicts; resolve them, then complete the merge"),
        RecoveryAction::ResolveConflict,
        false,
    )
}

/// After a failed merge without conflicts the app runs `merge --abort`:
/// the error, and whether the merge record is cleared (the abort worked
/// and no MERGE_HEAD is left).
pub fn merge_commit_abort_outcome(abort_ok: bool, merge_head_live: bool) -> (r: (AppError, bool))
    ensures
        r.1 == (abort_ok && !merge_head_live),
        r.1 ==> is_error(
            r.0,
            ErrorCode::GIT_ERROR,
            "Git could not "@ + "merge the commit"@,
            RecoveryAction::Refresh,
            true,
        ),
        !r.1 ==> is_error(
            r.0,
            ErrorCode::GIT_ERROR,
            "The merge failed and automatic cleanup did not finish; inspect the repository before retrying"@,
            RecoveryAction::InspectState,
            true,
        ),
{
    if abort_ok && !merge_head_live {
        return (git_failed("merge the commit"), true);
    }
    (
        AppError::new(
            ErrorCode::GIT_ERROR,
            string_lit(
                "The merge failed and automatic cleanup did not finish; inspect the repository before retrying",
            ),
            RecoveryAction::InspectState,
            true,
        ),
        false,
    )
}

// ---------------------------------------------------------------------------
// Rebase onto a commit
// ---------------------------------------------------------------------------

pub fn rebase_stopped() -> (e: AppError)
    ensures
        is_error(
            e,
            ErrorCode::CONFLICTS_PRESENT,
            "The rebase stopped on conflicts; finish it in a terminal (git status, resolve, git rebase --continue/--abort)"@,
            RecoveryAction::InspectState,
            false,
        ),
{
    AppError::new(
        ErrorCode::CONFLICTS_PRESENT,
        string_lit(
            "The rebase stopped on conflicts; finish it in a terminal (git status, resolve, git rebase --continue/--abort)",
        ),
        RecoveryAction::InspectState,
        false,
    )
}

// ---------------------------------------------------------------------------
// The HEAD-scoped amend family
// ---------------------------------------------------------------------------

/// The new message of a reword: the trimmed subject (1..=500 chars), then,
/// when the trimmed body is not empty, a blank line and the body. The raw
/// body is limited to 64 KiB.
pub open spec fn reword_text(subject: Seq<char>, body: Seq<char>) -> Seq<char> {
    let s = trim(subject);
    let b = trim(body);
    if b.len() == 0 {
        s
    } else {
        s + "\n\n"@ + b
    }
}

pub fn reword_commit_message(subject: &str, body: &str) -> (r: Result<String, AppError>)
    ensures
        ({
            let s = trim(subject@);
            if s.len() == 0 || s.len() > 500 {
                r matches Err(e) && is_error(
                    e,
                    ErrorCode::INVALID_ARGUMENT,
                    "Subject is required and limited to 500 characters"@,
                    RecoveryAction::InspectState,
                    false,
                )
            } else if utf8_len(body@) > 64 * 1024 {
                r matches Err(e) && is_error(
                    e,
                    ErrorCode::INVALID_ARGUMENT,
                    "Body is limited to 64 KiB"@,
                    RecoveryAction::InspectState,
                    false,
                )
            } else {
                r matches Ok(m) && m@ == reword_text(subject@, body@)
            }
        }),
{
    let s = trim_str(subject);
    if s.len() == 0 || s.len() > 500 {
        return Err(bad_request_str("Subject is required and limited to 500 characters"));
    }
    if str_exceeds(body, 64 * 1024) {
        return Err(bad_request_str("Body is limited to 64 KiB"));
    }
    let mut message = string_of(s.as_slice());
    let b = trim_str(body);
    if b.len() > 0 {
        let bs = string_of(b.as_slice());
        message.append("\n\n");
        message.append(bs.as_str());
    }
    Ok(message)
}

/// `git diff --cached --quiet` succeeded: nothing is staged to fold in.
pub fn check_staged_for_amend(nothing_staged: bool) -> (r: Result<(), AppError>)
    ensures
        r is Ok <==> !nothing_staged,
        r matches Err(e) ==> is_error(
            e,
            ErrorCode::EMPTY_INDEX,
            "Stage the follow-up changes first, then modify HEAD to fold them in"@,
            RecoveryAction::InspectState,
            false,
        ),
{
    if nothing_staged {
        return Err(
            AppError::new(
                ErrorCode::EMPTY_INDEX,
                string_lit("Stage the follow-up changes first, then modify HEAD to fold them in"),
                RecoveryAction::InspectState,
                false,
            ),
        );
    }
    Ok(())
}

/// `{name} <{email}>` from the trimmed name and email; the email must hold
/// an `@`.
pub fn author_of(name: &str, email: &str) -> (r: Result<String, AppError>)
    ensures
        ({
            let n = trim(name@);
            let m = trim(email@);
            if n.len() == 0 || m.len() == 0 || !m.contains('@') {
                r matches Err(e) && is_error(
                    e,
                    ErrorCode::INVALID_ARGUMENT,
                    "Author needs a name and a valid email"@,
                    RecoveryAction::InspectState,
                    false,
                )
            } else {
                r matches Ok(a) && a@ == n + " <"@ + m + ">"@
            }
        }),
{
    let n = trim_str(name);
    let m = trim_str(email);
    if n.len() == 0 || m.len() == 0 || !contains_char(&m, '@') {
        return Err(bad_request_str("Author needs a name and a valid email"));
    }
    let ns = string_of(n.as_slice());
    let ms = string_of(m.as_slice());
    let mut a = concat3(ns.as_str(), " <", ms.as_str());
    a.append(">");
    Ok(a)
}

/// The `--author=` flag handed to `git commit --amend`.
pub fn author_flag(author: &str) -> (r: String)
    ensures
        r@ == "--author="@ + author@,
{
    concat2("--author=", author)
}

/// `{oid}^`, the parent revision of a commit.
pub fn parent_rev(oid: &str) -> (r: String)
    ensures
        r@ == oid@ + "^"@,
{
    concat2(oid, "^")
}

/// A split needs a parent to reset to.
pub fn check_split_parent(parent_found: bool) -> (r: Result<(), AppError>)
    ensures
        r is Ok <==> parent_found,
        r matches Err(e) ==> is_error(
            e,
            ErrorCode::INVALID_ARGUMENT,
            "The root commit cannot be split this way"@,
            RecoveryAction::InspectState,
            false,
        ),
{
    if !parent_found {
        return Err(bad_request_str("The root commit cannot be split this way"));
    }
    Ok(())
}

// ---------------------------------------------------------------------------
// Move to a new branch
// ---------------------------------------------------------------------------

/// What a failed `git branch <name> <oid>` means.
pub fn branch_create_failure(stderr: &str) -> (e: AppError)
    ensures
        contains_seq(stderr@, "already exists"@) ==> is_error(
            e,
            ErrorCode::INVALID_ARGUMENT,
            "A branch with this name already exists"@,
            RecoveryAction::InspectState,
            false,
        ),
        !contains_seq(stderr@, "already exists"@) ==> is_error(
            e,
            ErrorCode::GIT_ERROR,
            "Git could not "@ + "create the branch"@,
            RecoveryAction::Refresh,
            true,
        ),
{
    if str_contains(&chars_of(stderr), "already exists") {
        bad_request_str("A branch with this name already exists")
    } else {
        git_failed("create the branch")
    }
}

/// Index of the first ref whose full name is `full`.
pub open spec fn ref_index(refs: Seq<RefItem>, full: Seq<char>) -> Option<int> {
    if exists|i: int| 0 <= i < refs.len() && refs[i].full_name@ == full {
        Some(
            choose|i: int|
                0 <= i < refs.len() && refs[i].full_name@ == full && forall|k: int|
                    0 <= k < i ==> (#[trigger] refs[k]).full_name@ != full,
        )
    } else {
        None
    }
}

pub proof fn lemma_ref_index(refs: Seq<RefItem>, full: Seq<char>, i: int)
    requires
        0 <= i < refs.len(),
        refs[i].full_name@ == full,
        forall|k: int| 0 <= k < i ==> (#[trigger] refs[k]).full_name@ != full,
    ensures
        ref_index(refs, full) == Some(i),
{
    let w = choose|j: int|
        0 <= j < refs.len() && refs[j].full_name@ == full && forall|k: int|
            0 <= k < j ==> (#[trigger] refs[k]).full_name@ != full;
    assert(0 <= w < refs.len() && refs[w].full_name@ == full);
    if w < i {
        assert(refs[w].full_name@ != full);
    }
    if i < w {
        assert(refs[i].full_name@ != full);
    }
}

/// The first ref named `full`.
pub fn find_ref_index(refs: &[RefItem], full: &str) -> (r: Option<usize>)
    ensures
        match r {
            Some(i) => i < refs@.len() && ref_index(refs@, full@) == Some(i as int),
            None => ref_index(refs@, full@) is None,
        },
{
    let mut i: usize = 0;
    while i < refs.len()
        invariant
            i <= refs@.len(),
            forall|k: int| 0 <= k < i ==> (#[trigger] refs@[k]).full_name@ != full@,
        decreases refs.len() - i,
    {
        if str_eq(refs[i].full_name.as_str(), full) {
            proof {
                lemma_ref_index(refs@, full@, i as int);
            }
            return Some(i);
        }
        i += 1;
    }
    None
}

/// The branch just created must still be listed and free to check out.
pub fn check_switch_target(refs: &[RefItem], name: &str) -> (r: Result<(), AppError>)
    ensures
        match ref_index(refs@, "refs/heads/"@ + name@) {
            None => r matches Err(e) && is_error(
                e,
                ErrorCode::REF_INVALID,
                "Branch no longer exists"@,
                RecoveryAction::Refresh,
                true,
            ),
            Some(i) => if refs@[i].checked_out_elsewhere {
                r matches Err(e) && is_error(
                    e,
                    ErrorCode::REF_INVALID,
                    "Branch is checked out in another worktree"@,
                    RecoveryAction::InspectState,
                    false,
                )
            } else {
                r is Ok
            },
        },
{
    let full = heads_ref(name);
    match find_ref_index(refs, full.as_str()) {
        None => Err(
            AppError::new(
                ErrorCode::REF_INVALID,
                string_lit("Branch no longer exists"),
                RecoveryAction::Refresh,
                true,
            ),
        ),
        Some(i) => {
            if refs[i].checked_out_elsewhere {
                return Err(
                    AppError::new(
                        ErrorCode::REF_INVALID,
                        string_lit("Branch is checked out in another worktree"),
                        RecoveryAction::InspectState,
                        false,
                    ),
                );
            }
            Ok(())
        },
    }
}

// ---------------------------------------------------------------------------
// Resets
// ---------------------------------------------------------------------------

/// `--hard` resets consume a confirmation token; the others take none.
/// `Ok(true)` means a token must be consumed before resetting.
pub fn reset_needs_token(mode: &str, token: Option<&str>) -> (r: Result<bool, AppError>)
    ensures
        mode@ != "--hard"@ ==> r == Ok::<bool, AppError>(false),
        mode@ == "--hard"@ && token is Some ==> r == Ok::<bool, AppError>(true),
        mode@ == "--hard"@ && token is None ==> (r matches Err(e) && is_error(
            e,
            ErrorCode::INVALID_ARGUMENT,
            "Hard reset needs a confirmation"@,
            RecoveryAction::InspectState,
            false,
        )),
{
    if str_eq(mode, "--hard") {
        match token {
            Some(_) => Ok(true),
            None => Err(bad_request_str("Hard reset needs a confirmation")),
        }
    } else {
        Ok(false)
    }
}

// ---------------------------------------------------------------------------
// Scripted interactive rebase
// ---------------------------------------------------------------------------

pub open spec fn known_action(a: Seq<char>) -> bool {
    a == "pick"@ || a == "reword"@ || a == "squash"@ || a == "fixup"@ || a == "drop"@
}

pub fn plan_action(entry: &RebasePlanEntry) -> (r: Result<&str, AppError>)
    ensures
        known_action(entry.action@) ==> (r matches Ok(a) && a@ == entry.action@),
        !known_action(entry.action@) ==> (r matches Err(e) && is_error(
            e,
            ErrorCode::INVALID_ARGUMENT,
            "Unknown rebase plan action"@,
            RecoveryAction::InspectState,
            false,
        )),
{
    let a = entry.action.as_str();
    if str_eq(a, "pick") || str_eq(a, "reword") || str_eq(a, "squash") || str_eq(a, "fixup")
        || str_eq(a, "drop") {
        Ok(a)
    } else {
        Err(bad_request_str("Unknown rebase plan action"))
    }
}

/// The plan lists 1..=200 commits and starts at the selected one.
pub fn check_plan_shape(oid: &str, plan: &[RebasePlanEntry]) -> (r: Result<(), AppError>)
    ensures
        plan@.len() == 0 || plan@.len() > 200 ==> (r matches Err(e) && is_error(
            e,
            ErrorCode::INVALID_ARGUMENT,
            "The rebase plan must list 1..=200 commits"@,
            RecoveryAction::InspectState,
            false,
        )),
        0 < plan@.len() <= 200 && plan@[0].oid@ != oid@ ==> (r matches Err(e) && is_error(
            e,
            ErrorCode::INVALID_ARGUMENT,
            "The rebase plan must start at the selected commit"@,
            RecoveryAction::InspectState,
            false,
        )),
        0 < plan@.len() <= 200 && plan@[0].oid@ == oid@ ==> r is Ok,
{
    if plan.len() == 0 || plan.len() > 200 {
        return Err(bad_request_str("The rebase plan must list 1..=200 commits"));
    }
    if !str_eq(plan[0].oid.as_str(), oid) {
        return Err(bad_request_str("The rebase plan must start at the selected commit"));
    }
    Ok(())
}

pub open spec fn message_of(e: RebasePlanEntry) -> Seq<char> {
    match e.message {
        Some(m) => m@,
        None => Seq::empty(),
    }
}

/// A reword carries a trimmed message of 1..=500 chars.
pub open spec fn reword_message_ok(e: RebasePlanEntry) -> bool {
    let m = trim(message_of(e));
    0 < m.len() <= 500
}

fn message_chars(entry: &RebasePlanEntry) -> (r: Vec<char>)
    ensures
        r@ == message_of(*entry),
{
    match &entry.message {
        Some(m) => chars_of(m.as_str()),
        None => Vec::new(),
    }
}

pub fn check_reword_entry(entry: &RebasePlanEntry) -> (r: Result<(), AppError>)
    ensures
        r is Err <==> (entry.action@ == "reword"@ && !reword_message_ok(*entry)),
        r matches Err(e) ==> is_error(
            e,
            ErrorCode::INVALID_ARGUMENT,
            "Reword needs a message of 1..=500 characters"@,
            RecoveryAction::InspectState,
            false,
        ),
{
    if str_eq(entry.action.as_str(), "reword") {
        let m = crate::text::trim_ws(&message_chars(entry));
        if m.len() == 0 || m.len() > 500 {
            return Err(bad_request_str("Reword needs a message of 1..=500 characters"));
        }
    }
    Ok(())
}

/// Some entry keeps its commit.
pub open spec fn plan_keeps_some(plan: Seq<RebasePlanEntry>) -> bool {
    exists|i: int| 0 <= i < plan.len() && (#[trigger] plan[i]).action@ != "drop"@
}

pub fn check_plan_keeps(plan: &[RebasePlanEntry]) -> (r: Result<(), AppError>)
    ensures
        r is Ok <==> plan_keeps_some(plan@),
        r matches Err(e) ==> is_error(
            e,
            ErrorCode::INVALID_ARGUMENT,
            "Dropping every commit would delete the branch"@,
            RecoveryAction::InspectState,
            false,
        ),
{
    let mut i: usize = 0;
    while i < plan.len()
        invariant
            i <= plan@.len(),
            forall|k: int| 0 <= k < i ==> (#[trigger] plan@[k]).action@ == "drop"@,
        decreases plan.len() - i,
    {
        if !str_eq(plan[i].action.as_str(), "drop") {
            return Ok(());
        }
        i += 1;
    }
    Err(bad_request_str("Dropping every commit would delete the branch"))
}

/// The selected commit needs a parent to rebase from.
pub fn check_rebase_parent(parent_found: bool) -> (r: Result<(), AppError>)
    ensures
        r is Ok <==> parent_found,
        r matches Err(e) ==> is_error(
            e,
            ErrorCode::INVALID_ARGUMENT,
            "The root commit cannot start an interactive rebase"@,
            RecoveryAction::InspectState,
            false,
        ),
{
    if !parent_found {
        return Err(bad_request_str("The root commit cannot start an interactive rebase"));
    }
    Ok(())
}

/// `{parent}..HEAD`, the range the plan must cover.
pub fn rebase_range_rev(parent: &str) -> (r: String)
    ensures
        r@ == parent@ + "..HEAD"@,
{
    concat2(parent, "..HEAD")
}

pub open spec fn plan_oids(plan: Seq<RebasePlanEntry>) -> Seq<Seq<char>> {
    plan.map_values(|e: RebasePlanEntry| e.oid@)
}

fn oids_match(expected: &Vec<Vec<char>>, plan: &[RebasePlanEntry]) -> (r: bool)
    ensures
        r == (view_lines(expected@) == plan_oids(plan@)),
{
    if expected.len() != plan.len() {
        assert(view_lines(expected@).len() != plan_oids(plan@).len());
        return false;
    }
    let mut i: usize = 0;
    while i < plan.len()
        invariant
            i <= plan@.len(),
            expected@.len() == plan@.len(),
            forall|k: int| 0 <= k < i ==> (#[trigger] expected@[k])@ == plan@[k].oid@,
        decreases plan.len() - i,
    {
        let o = chars_of(plan[i].oid.as_str());
        if !seq_eq(&expected[i], &o) {
            assert(view_lines(expected@)[i as int] != plan_oids(plan@)[i as int]);
            return false;
        }
        i += 1;
    }
    assert(view_lines(expected@) =~= plan_oids(plan@));
    true
}

/// The plan lists exactly the commits of the range, oldest first, as
/// `git rev-list --topo-order --reverse` printed them.
pub fn check_rebase_range(range_stdout: &str, plan: &[RebasePlanEntry]) -> (r: Result<
    (),
    AppError,
>)
    ensures
        r is Ok <==> trimmed_lines(range_stdout@) == plan_oids(plan@),
        r matches Err(e) ==> is_error(
            e,
            ErrorCode::STALE_STATE,
            "The history changed or is not fully loaded; refresh and retry"@,
            RecoveryAction::Refresh,
            true,
        ),
{
    let expected = trimmed_lines_vec(&chars_of(range_stdout));
    let same = oids_match(&expected, plan);
    if !same {
        return Err(
            AppError::new(
                ErrorCode::STALE_STATE,
                string_lit("The history changed or is not fully loaded; refresh and retry"),
                RecoveryAction::Refresh,
                true,
            ),
        );
    }
    Ok(())
}

/// `PathBuf::join` of a relative file name onto a directory.
pub open spec fn join_path(dir: Seq<char>, name: Seq<char>) -> Seq<char> {
    if dir.len() == 0 || dir.last() == '/' {
        dir + name
    } else {
        dir + "/"@ + name
    }
}

pub fn join_path_str(dir: &str, name: &str) -> (r: String)
    ensures
        r@ == join_path(dir@, name@),
{
    let d = chars_of(dir);
    if d.len() == 0 || d[d.len() - 1] == '/' {
        concat2(dir, name)
    } else {
        concat3(dir, "/", name)
    }
}

/// `gitdock-rebase-{pid}-{version}`, the private script directory's name.
pub fn rebase_script_dir_name(pid: u32, version: u64) -> (r: String)
    ensures
        r@ == "gitdock-rebase-"@ + dec(pid as nat) + "-"@ + dec(version as nat),
{
    let p = dec_string(pid as u64);
    let v = dec_string(version);
    let mut r = concat3("gitdock-rebase-", p.as_str(), "-");
    r.append(v.as_str());
    r
}

/// `reword-{k}.txt`: the file carrying the k-th reword message.
pub open spec fn reword_file(k: nat) -> Seq<char> {
    "reword-"@ + dec(k) + ".txt"@
}

pub fn reword_file_name(k: u64) -> (r: String)
    ensures
        r@ == reword_file(k as nat),
{
    let d = dec_string(k);
    concat3("reword-", d.as_str(), ".txt")
}

/// The content of a reword message file: the trimmed message and a newline.
pub fn reword_file_text(entry: &RebasePlanEntry) -> (r: String)
    ensures
        r@ == trim(message_of(*entry)) + "\n"@,
{
    let m = crate::text::trim_ws(&message_chars(entry));
    let mut r = string_of(m.as_slice());
    r.append("\n");
    r
}

/// Rewords among the first `n` entries.
pub open spec fn rewords_before(plan: Seq<RebasePlanEntry>, n: nat) -> nat
    decreases n,
{
    if n == 0 {
        0
    } else {
        rewords_before(plan, (n - 1) as nat) + if plan[n - 1].action@ == "reword"@ {
            1nat
        } else {
            0nat
        }
    }
}

/// The todo lines of one entry. A reword is a pick followed by an `exec`
/// that amends with the message file (never an editor, never argv).
pub open spec fn todo_entry(e: RebasePlanEntry, subject: Seq<char>, path: Seq<char>) -> Seq<char> {
    if e.action@ == "reword"@ {
        "pick "@ + e.oid@ + " "@ + subject + "\n"@ + "exec git commit --amend -F '"@ + path
            + "'\n"@
    } else {
        e.action@ + " "@ + e.oid@ + " "@ + subject + "\n"@
    }
}

/// The todo file for the first `n` entries of the plan.
pub open spec fn todo_upto(
    plan: Seq<RebasePlanEntry>,
    subjects: Seq<Seq<char>>,
    dir: Seq<char>,
    n: nat,
) -> Seq<char>
    decreases n,
{
    if n == 0 {
        Seq::empty()
    } else {
        todo_upto(plan, subjects, dir, (n - 1) as nat) + todo_entry(
            plan[n - 1],
            subjects[n - 1],
            join_path(dir, reword_file(rewords_before(plan, (n - 1) as nat))),
        )
    }
}

pub open spec fn all_known(plan: Seq<RebasePlanEntry>) -> bool {
    forall|i: int| 0 <= i < plan.len() ==> known_action((#[trigger] plan[i]).action@)
}

/// The todo file that replaces Git's: one block per plan entry, with the
/// entry's subject; reword messages live in `script_dir`.
pub fn rebase_todo(plan: &[RebasePlanEntry], subjects: &[String], script_dir: &str) -> (r: Result<
    String,
    AppError,
>)
    requires
        subjects@.len() == plan@.len(),
    ensures
        all_known(plan@) ==> (r matches Ok(t) && t@ == todo_upto(
            plan@,
            string_views(subjects@),
            script_dir@,
            plan@.len(),
        )),
        !all_known(plan@) ==> (r matches Err(e) && is_error(
            e,
            ErrorCode::INVALID_ARGUMENT,
            "Unknown rebase plan action"@,
            RecoveryAction::InspectState,
            false,
        )),
{
    let ghost subj = string_views(subjects@);
    let mut todo = String::new();
    let mut k: u64 = 0;
    let mut i: usize = 0;
    while i < plan.len()
        invariant
            i <= plan@.len(),
            subjects@.len() == plan@.len(),
            subj == string_views(subjects@),
            k == rewords_before(plan@, i as nat),
            k <= i,
            todo@ == todo_upto(plan@, subj, script_dir@, i as nat),
            forall|j: int| 0 <= j < i ==> known_action((#[trigger] plan@[j]).action@),
        decreases plan.len() - i,
    {
        let entry = &plan[i];
        let action = match plan_action(entry) {
            Ok(a) => a,
            Err(e) => {
                assert(!known_action(plan@[i as int].action@));
                return Err(e);
            },
        };
        let subject = subjects[i].as_str();
        assert(subject@ == subj[i as int]);
        let ghost before = todo@;
        if str_eq(action, "reword") {
            let name = reword_file_name(k);
            let path = join_path_str(script_dir, name.as_str());
            todo.append("pick ");
            todo.append(entry.oid.as_str());
            todo.append(" ");
            todo.append(subject);
            todo.append("\n");
            todo.append("exec git commit --amend -F '");
            todo.append(path.as_str());
            todo.append("'\n");
            assert(todo@ =~= before + todo_entry(plan@[i as int], subj[i as int], path@));
            k = k + 1;
        } else {
            todo.append(action);
            todo.append(" ");
            todo.append(entry.oid.as_str());
            todo.append(" ");
            todo.append(subject);
            todo.append("\n");
            assert(todo@ =~= before + todo_entry(
                plan@[i as int],
                subj[i as int],
                join_path(script_dir@, reword_file(k as nat)),
            ));
        }
        i += 1;
    }
    Ok(todo)
}

/// The sequence editor: copies the prepared todo over Git's.
pub fn sequence_editor_script(todo_path: &str) -> (r: String)
    ensures
        r@ == "#!/bin/sh\n"@ + "cp '"@ + todo_path@ + "' \"$1\"\n"@,
{
    let mut r = concat3("#!/bin/sh\n", "cp '", todo_path);
    r.append("' \"$1\"\n");
    r
}

pub fn interactive_rebase_stopped() -> (e: AppError)
    ensures
        is_error(
            e,
            ErrorCode::CONFLICTS_PRESENT,
            "The interactive rebase stopped; finish it in a terminal (git status, resolve, GIT_EDITOR=true git rebase --continue, or git rebase --abort)"@,
            RecoveryAction::InspectState,
            false,
        ),
{
    AppError::new(
        ErrorCode::CONFLICTS_PRESENT,
        string_lit(
            "The interactive rebase stopped; finish it in a terminal (git status, resolve, GIT_EDITOR=true git rebase --continue, or git rebase --abort)",
        ),
        RecoveryAction::InspectState,
        false,
    )
}

} // verus!
