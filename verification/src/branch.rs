//! Branch workflows: create, switch, safe delete, move, rename, upstream,
//! push, and the confirmations that guard the destructive ones.
//!
//! Delete is safe-only (`-d`, never `-D`) behind a single-use token bound
//! to repository, version, action and targets. Switching demands a clean
//! worktree and never force-moves refs; pushes go only to the configured
//! upstream, never forced.

use vstd::prelude::*;
use crate::text::{string_views};
use crate::domain::RefItem;
use crate::error::{bad_request_str, git_failed, is_error, AppError, ErrorCode, RecoveryAction, RequestId};
use crate::history::{lemma_ref_with_id, ref_with_id};
use crate::history_actions::{push_error_for, push_failure_kind};
use crate::merge::{first_chars, take_chars};
use crate::text::{
    chars_of, concat2, concat3, contains_seq, first_where, is_char, seq_eq, split_once, str_contains,
    str_eq, string_lit, string_of, strip_prefix, strip_prefix_vec, trim, trim_str, utf8_len,
    utf8_len_exceeds,
};

verus! {

#[derive(Debug)]
pub struct BranchCreateRequest {
    pub request_id: RequestId,
    pub repo_id: String,
    pub expected_version: u64,
    pub name: String,
    pub start_oid: String,
    pub switch_after_create: bool,
}

#[derive(Debug)]
pub struct BranchSwitchRequest {
    pub request_id: RequestId,
    pub repo_id: String,
    pub expected_version: u64,
    pub ref_id: String,
    pub new_local_name: Option<String>,
}

#[derive(Debug)]
pub struct BranchDeleteRequest {
    pub request_id: RequestId,
    pub repo_id: String,
    pub expected_version: u64,
    pub ref_id: String,
    pub confirmation_token: String,
}

#[derive(Debug)]
pub struct BranchMoveRequest {
    pub request_id: RequestId,
    pub repo_id: String,
    pub expected_version: u64,
    pub ref_id: String,
    pub oid: String,
    pub confirmation_token: String,
}

#[derive(Debug)]
pub struct BranchRenameRequest {
    pub request_id: RequestId,
    pub repo_id: String,
    pub expected_version: u64,
    pub ref_id: String,
    pub new_name: String,
}

#[derive(Debug)]
pub struct BranchSetUpstreamRequest {
    pub request_id: RequestId,
    pub repo_id: String,
    pub expected_version: u64,
    pub ref_id: String,
    pub upstream_ref_id: String,
}

#[derive(Debug)]
pub struct BranchPushRequest {
    pub request_id: RequestId,
    pub repo_id: String,
    pub expected_version: u64,
    pub ref_id: String,
}

#[derive(Debug)]
pub struct ConfirmationPrepareRequest {
    pub request_id: RequestId,
    pub repo_id: String,
    pub expected_version: u64,
    pub action: String,
    pub targets: Vec<String>,
}

// ---------------------------------------------------------------------------
// Refs
// ---------------------------------------------------------------------------

/// The branch name of a `refs/heads/…` ref.
pub open spec fn short_name_of(full: Seq<char>) -> Option<Seq<char>> {
    strip_prefix(full, "refs/heads/"@)
}

pub fn short_name(full: &str) -> (r: Option<String>)
    ensures
        match short_name_of(full@) {
            Some(n) => r matches Some(s) && s@ == n,
            None => r is None,
        },
{
    match strip_prefix_vec(&chars_of(full), &chars_of("refs/heads/")) {
        Some(n) => Some(string_of(n.as_slice())),
        None => None,
    }
}

pub fn copy_ref(r: &RefItem) -> (c: RefItem)
    ensures
        c == *r,
{
    RefItem {
        ref_id: r.ref_id.clone(),
        full_name: r.full_name.clone(),
        label: r.label.clone(),
        kind: r.kind.clone(),
        oid: r.oid.clone(),
        current: r.current,
        checked_out_elsewhere: r.checked_out_elsewhere,
    }
}

pub fn unknown_branch_ref() -> (e: AppError)
    ensures
        is_error(
            e,
            ErrorCode::REF_INVALID,
            "Unknown branch reference"@,
            RecoveryAction::Refresh,
            true,
        ),
{
    AppError::new(
        ErrorCode::REF_INVALID,
        string_lit("Unknown branch reference"),
        RecoveryAction::Refresh,
        true,
    )
}

/// The first ref with this id.
pub fn find_ref(refs: &[RefItem], ref_id: &str) -> (r: Result<RefItem, AppError>)
    ensures
        match ref_with_id(refs@, ref_id@) {
            Some(i) => r == Ok::<RefItem, AppError>(refs@[i]),
            None => r matches Err(e) && is_error(
                e,
                ErrorCode::REF_INVALID,
                "Unknown branch reference"@,
                RecoveryAction::Refresh,
                true,
            ),
        },
{
    let mut i: usize = 0;
    while i < refs.len()
        invariant
            i <= refs@.len(),
            forall|k: int| 0 <= k < i ==> (#[trigger] refs@[k]).ref_id@ != ref_id@,
        decreases refs.len() - i,
    {
        if str_eq(refs[i].ref_id.as_str(), ref_id) {
            proof {
                lemma_ref_with_id(refs@, ref_id@, i as int);
            }
            return Ok(copy_ref(&refs[i]));
        }
        i += 1;
    }
    Err(unknown_branch_ref())
}

/// Actions that need a local branch.
pub fn local_branch_name(target: &RefItem) -> (r: Result<String, AppError>)
    ensures
        match short_name_of(target.full_name@) {
            Some(n) => r matches Ok(s) && s@ == n,
            None => r matches Err(e) && is_error(
                e,
                ErrorCode::INVALID_ARGUMENT,
                "Only local branches support this action"@,
                RecoveryAction::InspectState,
                false,
            ),
        },
{
    match short_name(target.full_name.as_str()) {
        Some(n) => Ok(n),
        None => Err(bad_request_str("Only local branches support this action")),
    }
}

/// "Branch '{name}' is checked out in another worktree".
pub fn checked_out_elsewhere(name: &str) -> (e: AppError)
    ensures
        is_error(
            e,
            ErrorCode::REF_INVALID,
            "Branch '"@ + name@ + "' is checked out in another worktree"@,
            RecoveryAction::InspectState,
            false,
        ),
{
    AppError::new(
        ErrorCode::REF_INVALID,
        concat3("Branch '", name, "' is checked out in another worktree"),
        RecoveryAction::InspectState,
        false,
    )
}

pub fn dirty_switch() -> (e: AppError)
    ensures
        is_error(
            e,
            ErrorCode::DIRTY_WORKTREE,
            "Stash or commit your changes before switching branches"@,
            RecoveryAction::InspectState,
            false,
        ),
{
    AppError::new(
        ErrorCode::DIRTY_WORKTREE,
        string_lit("Stash or commit your changes before switching branches"),
        RecoveryAction::InspectState,
        false,
    )
}

/// The commit a branch should start at or move to is gone.
pub fn missing_commit(start: bool) -> (e: AppError)
    ensures
        start ==> is_error(
            e,
            ErrorCode::REF_INVALID,
            "Start commit does not exist"@,
            RecoveryAction::Refresh,
            true,
        ),
        !start ==> is_error(
            e,
            ErrorCode::REF_INVALID,
            "Target commit does not exist"@,
            RecoveryAction::Refresh,
            true,
        ),
{
    if start {
        AppError::new(
            ErrorCode::REF_INVALID,
            string_lit("Start commit does not exist"),
            RecoveryAction::Refresh,
            true,
        )
    } else {
        AppError::new(
            ErrorCode::REF_INVALID,
            string_lit("Target commit does not exist"),
            RecoveryAction::Refresh,
            true,
        )
    }
}

// ---------------------------------------------------------------------------
// Switch
// ---------------------------------------------------------------------------

/// Before `git switch <name>`: the branch exists, is not checked out
/// elsewhere. `Ok(true)` means it is already current and nothing runs; on
/// `Ok(false)` the worktree must then be clean.
pub fn switch_plan(refs: &[RefItem], name: &str) -> (r: Result<bool, AppError>)
    ensures
        match crate::history_actions::ref_index(refs@, "refs/heads/"@ + name@) {
            None => r matches Err(e) && is_error(
                e,
                ErrorCode::REF_INVALID,
                "Branch no longer exists"@,
                RecoveryAction::Refresh,
                true,
            ),
            Some(i) => if refs@[i].current {
                r == Ok::<bool, AppError>(true)
            } else if refs@[i].checked_out_elsewhere {
                r matches Err(e) && is_error(
                    e,
                    ErrorCode::REF_INVALID,
                    "Branch is checked out in another worktree"@,
                    RecoveryAction::InspectState,
                    false,
                )
            } else {
                r == Ok::<bool, AppError>(false)
            },
        },
{
    let full = crate::history_actions::heads_ref(name);
    match crate::history_actions::find_ref_index(refs, full.as_str()) {
        None => Err(
            AppError::new(
                ErrorCode::REF_INVALID,
                string_lit("Branch no longer exists"),
                RecoveryAction::Refresh,
                true,
            ),
        ),
        Some(i) => {
            if refs[i].current {
                return Ok(true);
            }
            if refs[i].checked_out_elsewhere {
                return Err(
                    AppError::new(
                        ErrorCode::REF_INVALID,
                        string_lit("Branch is checked out in another worktree"),
                        RecoveryAction::InspectState,
                        false,
                    ),
                );
            }
            Ok(false)
        },
    }
}

/// A local target switches by its branch name.
pub fn local_switch_name(target: &RefItem) -> (r: Result<String, AppError>)
    ensures
        match short_name_of(target.full_name@) {
            Some(n) => r matches Ok(s) && s@ == n,
            None => r matches Err(e) && is_error(
                e,
                ErrorCode::INVALID_ARGUMENT,
                "Only local branches can be switched directly"@,
                RecoveryAction::InspectState,
                false,
            ),
        },
{
    match short_name(target.full_name.as_str()) {
        Some(n) => Ok(n),
        None => Err(bad_request_str("Only local branches can be switched directly")),
    }
}

/// A remote target needs an explicit, non-blank local name; it is never
/// invented.
pub fn tracking_branch_name(new_local_name: Option<&str>) -> (r: Result<Vec<char>, AppError>)
    ensures
        match new_local_name {
            Some(n) => if trim(n@).len() > 0 {
                r matches Ok(t) && t@ == trim(n@)
            } else {
                r matches Err(e) && is_error(
                    e,
                    ErrorCode::INVALID_ARGUMENT,
                    "Choose a local name to track this remote branch"@,
                    RecoveryAction::InspectState,
                    false,
                )
            },
            None => r matches Err(e) && is_error(
                e,
                ErrorCode::INVALID_ARGUMENT,
                "Choose a local name to track this remote branch"@,
                RecoveryAction::InspectState,
                false,
            ),
        },
{
    match new_local_name {
        Some(n) => {
            let t = trim_str(n);
            if t.len() > 0 {
                return Ok(t);
            }
            Err(bad_request_str("Choose a local name to track this remote branch"))
        },
        None => Err(bad_request_str("Choose a local name to track this remote branch")),
    }
}

// ---------------------------------------------------------------------------
// Confirmations
// ---------------------------------------------------------------------------

/// Which confirmation a request prepares.
#[derive(Debug, Clone, Copy, PartialEq, Eq, Structural)]
pub enum ConfirmationRoute {
    Discard,
    BranchMove,
    MergeAbort,
    ConflictAccept,
    BranchDelete,
}

/// What the trust error names for a confirmation action.
pub fn confirmation_trust_action(action: &str) -> (r: &'static str)
    ensures
        crate::text::starts_with(action@, "discard_"@) ==> r@ == "discard working changes"@,
        !crate::text::starts_with(action@, "discard_"@) ==> r@ == "delete branches"@,
{
    let a = chars_of(action);
    let p = chars_of("discard_");
    if crate::text::has_prefix(&a, &p) {
        assert(p@.is_prefix_of(a@) ==> crate::text::starts_with(action@, "discard_"@));
        "discard working changes"
    } else {
        assert(crate::text::starts_with(action@, "discard_"@) ==> p@.is_prefix_of(a@));
        "delete branches"
    }
}

/// Routes an action and checks the shape of its targets. Discards and
/// history rewrites (whose target shape the discard route checks) share one
/// route.
pub open spec fn route_of(action: Seq<char>, targets: Seq<Seq<char>>) -> Result<
    ConfirmationRoute,
    Seq<char>,
> {
    if action == "discard_file"@ || action == "discard_hunk"@ || crate::stage::history_action(
        action,
    ) {
        Ok(ConfirmationRoute::Discard)
    } else if action != "branch_delete"@ && action != "merge_abort"@ && action
        != "conflict_accept"@ && action != "branch_move"@ {
        Err("Unsupported confirmation action"@)
    } else if action == "branch_move"@ {
        if targets.len() != 2 {
            Err("Branch move confirms one branch and one commit"@)
        } else {
            Ok(ConfirmationRoute::BranchMove)
        }
    } else if action == "merge_abort"@ {
        if targets != seq!["merge"@] {
            Err("Merge abort confirms the single live merge"@)
        } else {
            Ok(ConfirmationRoute::MergeAbort)
        }
    } else if action == "conflict_accept"@ {
        if targets.len() != 2 {
            Err("Conflict accept confirms one file and one side"@)
        } else {
            Ok(ConfirmationRoute::ConflictAccept)
        }
    } else if targets.len() == 0 || targets.len() > 16 {
        Err("Select 1..=16 branches"@)
    } else {
        Ok(ConfirmationRoute::BranchDelete)
    }
}

pub fn confirmation_route(action: &str, targets: &[String]) -> (r: Result<ConfirmationRoute, AppError>)
    ensures
        match route_of(action@, string_views(targets@)) {
            Ok(k) => r == Ok::<ConfirmationRoute, AppError>(k),
            Err(m) => r matches Err(e) && is_error(
                e,
                ErrorCode::INVALID_ARGUMENT,
                m,
                RecoveryAction::InspectState,
                false,
            ),
        },
{
    if str_eq(action, "discard_file") || str_eq(action, "discard_hunk") || str_eq(
        action,
        "history_reset_hard",
    ) || str_eq(action, "history_rebase") || str_eq(action, "history_rebase_interactive")
        || str_eq(action, "history_split") {
        return Ok(ConfirmationRoute::Discard);
    }
    if !str_eq(action, "branch_delete") && !str_eq(action, "merge_abort") && !str_eq(
        action,
        "conflict_accept",
    ) && !str_eq(action, "branch_move") {
        return Err(bad_request_str("Unsupported confirmation action"));
    }
    if str_eq(action, "branch_move") {
        if targets.len() != 2 {
            return Err(bad_request_str("Branch move confirms one branch and one commit"));
        }
        return Ok(ConfirmationRoute::BranchMove);
    }
    if str_eq(action, "merge_abort") {
        let single = targets.len() == 1 && str_eq(targets[0].as_str(), "merge");
        if !single {
            proof {
                if string_views(targets@) == seq!["merge"@] {
                    assert(string_views(targets@).len() == 1);
                    assert(targets@[0]@ == string_views(targets@)[0]);
                }
            }
            return Err(bad_request_str("Merge abort confirms the single live merge"));
        }
        assert(string_views(targets@) =~= seq!["merge"@]);
        return Ok(ConfirmationRoute::MergeAbort);
    }
    if str_eq(action, "conflict_accept") {
        if targets.len() != 2 {
            return Err(bad_request_str("Conflict accept confirms one file and one side"));
        }
        return Ok(ConfirmationRoute::ConflictAccept);
    }
    if targets.len() == 0 || targets.len() > 16 {
        return Err(bad_request_str("Select 1..=16 branches"));
    }
    Ok(ConfirmationRoute::BranchDelete)
}

/// The summary of a branch move confirmation.
pub open spec fn move_text(name: Seq<char>, old_oid: Seq<char>, new_oid: Seq<char>) -> Seq<char> {
    "Move branch '"@ + name + "' from "@ + take_chars(old_oid, 7) + " to "@ + take_chars(new_oid, 7)
        + ". Commits left behind stay reachable from the reflog for a while, but GitDock keeps no backup."@
}

pub fn move_summary(target: &RefItem, new_oid: &str) -> (r: Result<String, AppError>)
    ensures
        match short_name_of(target.full_name@) {
            Some(name) => r matches Ok(s) && s@ == move_text(name, target.oid@, new_oid@),
            None => r matches Err(e) && is_error(
                e,
                ErrorCode::INVALID_ARGUMENT,
                "Only local branches can be moved"@,
                RecoveryAction::InspectState,
                false,
            ),
        },
{
    let name = match short_name(target.full_name.as_str()) {
        Some(n) => n,
        None => {
            return Err(bad_request_str("Only local branches can be moved"));
        },
    };
    let old = first_chars(target.oid.as_str(), 7);
    let new = first_chars(new_oid, 7);
    let mut s = concat3("Move branch '", name.as_str(), "' from ");
    s.append(old.as_str());
    s.append(" to ");
    s.append(new.as_str());
    s.append(
        ". Commits left behind stay reachable from the reflog for a while, but GitDock keeps no backup.",
    );
    Ok(s)
}

/// A branch that may be deleted: local, not current, not checked out
/// elsewhere. Returns its name.
pub open spec fn delete_error(target: RefItem) -> Option<(ErrorCode, Seq<char>, RecoveryAction)> {
    match short_name_of(target.full_name@) {
        None => Some(
            (
                ErrorCode::INVALID_ARGUMENT,
                "Only local branches can be deleted"@,
                RecoveryAction::InspectState,
            ),
        ),
        Some(name) => if target.current {
            Some(
                (
                    ErrorCode::INVALID_ARGUMENT,
                    "The current branch cannot be deleted"@,
                    RecoveryAction::InspectState,
                ),
            )
        } else if target.checked_out_elsewhere {
            Some(
                (
                    ErrorCode::REF_INVALID,
                    "Branch '"@ + name + "' is checked out in another worktree"@,
                    RecoveryAction::InspectState,
                ),
            )
        } else {
            None
        },
    }
}

pub fn check_delete_target(target: &RefItem) -> (r: Result<String, AppError>)
    ensures
        match delete_error(*target) {
            None => r matches Ok(n) && short_name_of(target.full_name@) == Some(n@),
            Some(x) => r matches Err(e) && is_error(e, x.0, x.1, x.2, false),
        },
{
    let name = match short_name(target.full_name.as_str()) {
        Some(n) => n,
        None => {
            return Err(bad_request_str("Only local branches can be deleted"));
        },
    };
    if target.current {
        return Err(bad_request_str("The current branch cannot be deleted"));
    }
    if target.checked_out_elsewhere {
        return Err(checked_out_elsewhere(name.as_str()));
    }
    Ok(name)
}

/// One line of the delete confirmation.
pub open spec fn delete_line_text(name: Seq<char>, oid: Seq<char>, merged: bool) -> Seq<char> {
    "Delete local branch '"@ + name + "' ("@ + take_chars(oid, 12) + "); "@ + (if merged {
        "fully merged into HEAD"@
    } else {
        "NOT merged into HEAD — safe delete will refuse"@
    })
}

pub fn delete_summary_line(name: &str, oid: &str, merged: bool) -> (r: String)
    ensures
        r@ == delete_line_text(name@, oid@, merged),
{
    let short = first_chars(oid, 12);
    let mut s = concat3("Delete local branch '", name, "' (");
    s.append(short.as_str());
    s.append("); ");
    if merged {
        s.append("fully merged into HEAD");
    } else {
        s.append("NOT merged into HEAD — safe delete will refuse");
    }
    s
}

/// `lines.join("\n")`.
pub open spec fn joined(lines: Seq<Seq<char>>) -> Seq<char>
    decreases lines.len(),
{
    if lines.len() == 0 {
        Seq::empty()
    } else if lines.len() == 1 {
        lines[0]
    } else {
        joined(lines.drop_last()) + "\n"@ + lines.last()
    }
}

pub fn join_lines(lines: &[String]) -> (r: String)
    ensures
        r@ == joined(string_views(lines@)),
{
    let mut s = String::new();
    let mut i: usize = 0;
    while i < lines.len()
        invariant
            i <= lines@.len(),
            s@ == joined(string_views(lines@).take(i as int)),
        decreases lines.len() - i,
    {
        proof {
            assert(string_views(lines@).take(i + 1).drop_last() =~= string_views(lines@).take(i as int));
            assert(string_views(lines@).take(i + 1).last() == lines@[i as int]@);
        }
        if i > 0 {
            s.append("\n");
        } else {
            assert(string_views(lines@).take(0) =~= Seq::<Seq<char>>::empty());
            assert(s@ =~= Seq::<char>::empty());
        }
        s.append(lines[i].as_str());
        i += 1;
    }
    assert(string_views(lines@).take(lines@.len() as int) =~= string_views(lines@));
    s
}

/// A failed safe delete: an unmerged branch refuses, never falls back to
/// `-D`.
pub fn delete_failure(stderr: &str) -> (e: AppError)
    ensures
        contains_seq(stderr@, "not fully merged"@) ==> is_error(
            e,
            ErrorCode::REF_INVALID,
            "Branch is not merged; safe delete refuses. Merge it first."@,
            RecoveryAction::InspectState,
            false,
        ),
        !contains_seq(stderr@, "not fully merged"@) ==> is_error(
            e,
            ErrorCode::GIT_ERROR,
            "Git could not "@ + "delete the branch"@,
            RecoveryAction::Refresh,
            true,
        ),
{
    if str_contains(&chars_of(stderr), "not fully merged") {
        AppError::new(
            ErrorCode::REF_INVALID,
            string_lit("Branch is not merged; safe delete refuses. Merge it first."),
            RecoveryAction::InspectState,
            false,
        )
    } else {
        git_failed("delete the branch")
    }
}

// ---------------------------------------------------------------------------
// Move, rename, upstream, push
// ---------------------------------------------------------------------------

/// A branch may be moved unless it is current or checked out elsewhere.
pub fn check_move_target(name: &str, current: bool, elsewhere: bool) -> (r: Result<(), AppError>)
    ensures
        r is Ok <==> !current && !elsewhere,
        current ==> (r matches Err(e) && is_error(
            e,
            ErrorCode::INVALID_ARGUMENT,
            "The current branch cannot be moved; switch away first"@,
            RecoveryAction::InspectState,
            false,
        )),
        !current && elsewhere ==> (r matches Err(e) && is_error(
            e,
            ErrorCode::REF_INVALID,
            "Branch '"@ + name@ + "' is checked out in another worktree"@,
            RecoveryAction::InspectState,
            false,
        )),
{
    if current {
        return Err(bad_request_str("The current branch cannot be moved; switch away first"));
    }
    if elsewhere {
        return Err(checked_out_elsewhere(name));
    }
    Ok(())
}

/// A new branch name after trimming: 1..=250 bytes.
pub fn check_new_branch_name(new_name: &str) -> (r: Result<Vec<char>, AppError>)
    ensures
        ({
            let t = trim(new_name@);
            if t.len() == 0 || utf8_len(t) > 250 {
                r matches Err(e) && is_error(
                    e,
                    ErrorCode::INVALID_ARGUMENT,
                    "Branch name must be 1..=250 characters"@,
                    RecoveryAction::InspectState,
                    false,
                )
            } else {
                r matches Ok(n) && n@ == t
            }
        }),
{
    let t = trim_str(new_name);
    if t.len() == 0 || utf8_len_exceeds(&t, 250) {
        return Err(bad_request_str("Branch name must be 1..=250 characters"));
    }
    Ok(t)
}

/// A rename must change the name and the branch must not be checked out
/// elsewhere.
pub fn check_rename(old: &str, new_name: &str, elsewhere: bool) -> (r: Result<(), AppError>)
    ensures
        r is Ok <==> old@ != new_name@ && !elsewhere,
        old@ == new_name@ ==> (r matches Err(e) && is_error(
            e,
            ErrorCode::INVALID_ARGUMENT,
            "The new name matches the current name"@,
            RecoveryAction::InspectState,
            false,
        )),
        old@ != new_name@ && elsewhere ==> (r matches Err(e) && is_error(
            e,
            ErrorCode::REF_INVALID,
            "Branch '"@ + old@ + "' is checked out in another worktree"@,
            RecoveryAction::InspectState,
            false,
        )),
{
    if str_eq(old, new_name) {
        return Err(bad_request_str("The new name matches the current name"));
    }
    if elsewhere {
        return Err(checked_out_elsewhere(old));
    }
    Ok(())
}

pub fn rename_failure(stderr: &str) -> (e: AppError)
    ensures
        contains_seq(stderr@, "already exists"@) ==> is_error(
            e,
            ErrorCode::INVALID_ARGUMENT,
            "A branch with this name already exists"@,
            RecoveryAction::InspectState,
            false,
        ),
        !contains_seq(stderr@, "already exists"@) ==> is_error(
            e,
            ErrorCode::GIT_ERROR,
            "Git could not "@ + "rename the branch"@,
            RecoveryAction::Refresh,
            true,
        ),
{
    if str_contains(&chars_of(stderr), "already exists") {
        bad_request_str("A branch with this name already exists")
    } else {
        git_failed("rename the branch")
    }
}

/// An upstream must be a remote-tracking branch.
pub fn check_upstream_kind(kind: &str) -> (r: Result<(), AppError>)
    ensures
        r is Ok <==> kind@ == "remote"@,
        r matches Err(e) ==> is_error(
            e,
            ErrorCode::INVALID_ARGUMENT,
            "Upstream must be a remote tracking branch"@,
            RecoveryAction::InspectState,
            false,
        ),
{
    if !str_eq(kind, "remote") {
        return Err(bad_request_str("Upstream must be a remote tracking branch"));
    }
    Ok(())
}

pub fn set_upstream_flag(upstream_full_name: &str) -> (r: String)
    ensures
        r@ == "--set-upstream-to="@ + upstream_full_name@,
{
    concat2("--set-upstream-to=", upstream_full_name)
}

/// `{name}@{upstream}`.
pub fn upstream_rev(name: &str) -> (r: String)
    ensures
        r@ == name@ + "@{upstream}"@,
{
    concat2(name, "@{upstream}")
}

pub fn no_upstream() -> (e: AppError)
    ensures
        is_error(
            e,
            ErrorCode::INVALID_ARGUMENT,
            "This branch has no upstream; use Set upstream first"@,
            RecoveryAction::InspectState,
            false,
        ),
{
    bad_request_str("This branch has no upstream; use Set upstream first")
}

/// `remote/branch` split at the first `/`; both parts must be non-empty.
pub open spec fn upstream_parts(s: Seq<char>) -> Option<(Seq<char>, Seq<char>)> {
    let (remote, dest) = match split_once(s, '/') {
        Some(p) => p,
        None => (s, Seq::empty()),
    };
    if remote.len() == 0 || dest.len() == 0 {
        None
    } else {
        Some((remote, dest))
    }
}

/// The remote and destination branch of the configured upstream, from the
/// trimmed output of `git rev-parse --abbrev-ref --symbolic-full-name`.
pub fn split_upstream(success: bool, stdout: &str) -> (r: Result<(Vec<char>, Vec<char>), AppError>)
    ensures
        match (if success {
            upstream_parts(trim(stdout@))
        } else {
            None
        }) {
            Some(p) => r matches Ok(q) && q.0@ == p.0 && q.1@ == p.1,
            None => r matches Err(e) && is_error(
                e,
                ErrorCode::INVALID_ARGUMENT,
                "This branch has no upstream; use Set upstream first"@,
                RecoveryAction::InspectState,
                false,
            ),
        },
{
    if !success {
        return Err(no_upstream());
    }
    let t = trim_str(stdout);
    let (remote, dest) = match crate::text::split_once_char(&t, '/') {
        Some(p) => p,
        None => (crate::text::slice_of(&t, 0, t.len()), Vec::new()),
    };
    assert(t@.subrange(0, t@.len() as int) =~= t@);
    if remote.len() == 0 || dest.len() == 0 {
        return Err(no_upstream());
    }
    Ok((remote, dest))
}

/// `{name}:{dest}`: the branch onto its upstream, never forced.
pub fn branch_push_refspec(name: &str, dest: &str) -> (r: String)
    ensures
        r@ == name@ + ":"@ + dest@,
{
    concat3(name, ":", dest)
}

/// A failed branch push.
pub fn push_terminal_error(stderr: &str) -> (e: AppError)
    ensures
        push_failure_kind(stderr@) == 0 ==> is_error(
            e,
            ErrorCode::AUTH_REQUIRED,
            "The remote rejected the credentials; refresh the token or unlock the SSH agent, then retry"@,
            RecoveryAction::Authenticate,
            true,
        ),
        push_failure_kind(stderr@) == 1 ==> is_error(
            e,
            ErrorCode::NETWORK_ERROR,
            "The network request to the remote failed; check connectivity and retry"@,
            RecoveryAction::RetryRead,
            true,
        ),
        push_failure_kind(stderr@) == 2 ==> is_error(
            e,
            ErrorCode::DIVERGED,
            "The remote branch moved ahead; fetch and merge before pushing"@,
            RecoveryAction::Refresh,
            true,
        ),
        push_failure_kind(stderr@) == 3 ==> is_error(
            e,
            ErrorCode::GIT_ERROR,
            "Git could not "@ + "push the branch"@,
            RecoveryAction::Refresh,
            true,
        ),
{
    push_error_for(stderr, "push the branch")
}

} // verus!
