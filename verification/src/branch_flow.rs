//! `branch_delete`: the safe delete of one local branch. The flow checks
//! the session, trust and version, spends the confirmation bound to the
//! branch, lists the refs, refuses what cannot be deleted (not local, the
//! current branch, checked out elsewhere), and asks for `git branch -d`
//! (never `-D`). A delete that went through moves the version on and drops
//! the repository's pinned history walks.

use vstd::prelude::*;
use crate::branch::{check_delete_target, delete_error, delete_failure, find_ref, short_name_of};
use crate::domain::{RefItem, TrustState};
use crate::error::{git_failed, is_error, session_missing, stale_state, trust_required, AppError, ErrorCode, RecoveryAction};
use crate::history::ref_with_id;
use crate::registry::{changed, not_confirmed, RepoRegistry};
use crate::text::{contains_seq, string_lit, string_views};

verus! {

/// The answer a branch delete waits for.
#[derive(Debug, Clone, Copy, PartialEq, Eq, Structural)]
pub enum DeleteWait {
    Refs,
    Delete,
    Nothing,
}

/// A branch delete in progress.
pub struct DeleteFlow {
    pub wait: DeleteWait,
    pub repo_id: String,
    pub ref_id: String,
}

/// What the shell does next.
pub enum DeleteAsk {
    /// List the refs of the repository.
    ListRefs,
    /// `git branch -d <name>`.
    Delete(String),
    Done(Result<(), AppError>),
}

/// What the shell found.
pub enum DeleteEvent {
    Refs(Result<Vec<RefItem>, AppError>),
    /// Whether Git deleted the branch, and its stderr; `Err` when Git could
    /// not run.
    Deleted(Result<(bool, String), AppError>),
}

/// The flow ended with this error.
pub open spec fn delete_fails(r: (DeleteFlow, DeleteAsk), x: (ErrorCode, Seq<char>, RecoveryAction, bool)) -> bool {
    r.0.wait == DeleteWait::Nothing && (r.1 matches DeleteAsk::Done(Err(e)) && is_error(e, x.0, x.1, x.2, x.3))
}

/// Sessions, confirmations, log and pinned walks are as they were.
pub open spec fn same_registry(reg0: RepoRegistry, reg1: RepoRegistry) -> bool {
    &&& reg1.sessions() == reg0.sessions()
    &&& reg1.confirmations() == reg0.confirmations()
    &&& reg1.log() == reg0.log()
    &&& reg1.histories() == reg0.histories()
}

pub open spec fn delete_start(
    reg0: RepoRegistry,
    reg1: RepoRegistry,
    repo_id: Seq<char>,
    expected_version: u64,
    ref_id: Seq<char>,
    token: Seq<char>,
    now: u64,
    r: (DeleteFlow, DeleteAsk),
) -> bool {
    match reg0.session_index(repo_id) {
        None => same_registry(reg0, reg1) && delete_fails(
            r,
            (
                ErrorCode::REPO_UNAVAILABLE,
                "Repository session is no longer open"@,
                RecoveryAction::ChooseRepository,
                false,
            ),
        ),
        Some(i) => if reg0.sessions()[i].trust != TrustState::Trusted {
            same_registry(reg0, reg1) && delete_fails(
                r,
                (
                    ErrorCode::TRUST_REQUIRED,
                    "Trust this repository to "@ + "delete branches"@,
                    RecoveryAction::InspectState,
                    false,
                ),
            )
        } else if reg0.sessions()[i].version != expected_version {
            same_registry(reg0, reg1) && delete_fails(
                r,
                (
                    ErrorCode::STALE_STATE,
                    "The repository changed under you; refresh and retry"@,
                    RecoveryAction::Refresh,
                    false,
                ),
            )
        } else if !reg0.bound(token, repo_id, expected_version, "branch_delete"@, seq![ref_id], now) {
            same_registry(reg0, reg1) && delete_fails(
                r,
                (
                    ErrorCode::INVALID_ARGUMENT,
                    "Confirmation is missing, expired or does not match; confirm again"@,
                    RecoveryAction::InspectState,
                    false,
                ),
            )
        } else {
            &&& reg1.sessions() == reg0.sessions()
            &&& reg1.log() == reg0.log()
            &&& reg1.histories() == reg0.histories()
            &&& !reg1.live(token)
            &&& r.0.wait == DeleteWait::Refs
            &&& r.0.repo_id@ == repo_id
            &&& r.0.ref_id@ == ref_id
            &&& r.1 is ListRefs
        },
    }
}

pub open spec fn delete_fits(w: DeleteWait, ev: DeleteEvent) -> bool {
    match ev {
        DeleteEvent::Refs(_) => w == DeleteWait::Refs,
        DeleteEvent::Deleted(_) => w == DeleteWait::Delete,
    }
}

/// One step of a branch delete; only a delete that went through changes
/// the registry.
pub open spec fn delete_next(
    reg0: RepoRegistry,
    reg1: RepoRegistry,
    f: DeleteFlow,
    ev: DeleteEvent,
    r: (DeleteFlow, DeleteAsk),
) -> bool {
    match ev {
        DeleteEvent::Refs(Err(e)) => reg1 == reg0 && r.0.wait == DeleteWait::Nothing && r.1
            == DeleteAsk::Done(Err(e)),
        DeleteEvent::Refs(Ok(refs)) => reg1 == reg0 && match ref_with_id(refs@, f.ref_id@) {
            None => delete_fails(
                r,
                (ErrorCode::REF_INVALID, "Unknown branch reference"@, RecoveryAction::Refresh, true),
            ),
            Some(k) => match delete_error(refs@[k]) {
                Some(x) => delete_fails(r, (x.0, x.1, x.2, false)),
                None => r.0.wait == DeleteWait::Delete && r.0.repo_id@ == f.repo_id@ && r.0.ref_id@
                    == f.ref_id@ && (r.1 matches DeleteAsk::Delete(n) && Some(n@) == short_name_of(
                    refs@[k].full_name@,
                )),
            },
        },
        DeleteEvent::Deleted(Err(_)) => reg1 == reg0 && delete_fails(
            r,
            (ErrorCode::GIT_ERROR, "Git could not "@ + "delete the branch"@, RecoveryAction::Refresh, true),
        ),
        DeleteEvent::Deleted(Ok((ok, stderr))) => if !ok {
            reg1 == reg0 && if contains_seq(stderr@, "not fully merged"@) {
                delete_fails(
                    r,
                    (
                        ErrorCode::REF_INVALID,
                        "Branch is not merged; safe delete refuses. Merge it first."@,
                        RecoveryAction::InspectState,
                        false,
                    ),
                )
            } else {
                delete_fails(
                    r,
                    (
                        ErrorCode::GIT_ERROR,
                        "Git could not "@ + "delete the branch"@,
                        RecoveryAction::Refresh,
                        true,
                    ),
                )
            }
        } else {
            &&& changed(reg0, reg1, f.repo_id@, None, None, 1, true)
            &&& r.0.wait == DeleteWait::Nothing
            &&& r.1 == DeleteAsk::Done(Ok(()))
        },
    }
}

fn fail(e: AppError) -> (r: (DeleteFlow, DeleteAsk))
    ensures
        r.0.wait == DeleteWait::Nothing,
        r.1 == DeleteAsk::Done(Err(e)),
{
    (
        DeleteFlow { wait: DeleteWait::Nothing, repo_id: String::new(), ref_id: String::new() },
        DeleteAsk::Done(Err(e)),
    )
}

/// Start deleting the branch `ref_id`, spending `token` at `now`.
pub fn branch_delete_begin(
    reg: &mut RepoRegistry,
    repo_id: &str,
    expected_version: u64,
    ref_id: &str,
    token: &str,
    now: u64,
) -> (r: (DeleteFlow, DeleteAsk))
    requires
        old(reg).wf(),
    ensures
        final(reg).wf(),
        delete_start(*old(reg), *final(reg), repo_id@, expected_version, ref_id@, token@, now, r),
{
    let (trust, version) = match reg.session(repo_id) {
        Some(s) => (s.trust, s.version),
        None => {
            return fail(session_missing());
        },
    };
    if trust != TrustState::Trusted {
        return fail(trust_required("delete branches"));
    }
    if version != expected_version {
        return fail(stale_state());
    }
    let mut targets: Vec<String> = Vec::new();
    targets.push(string_lit(ref_id));
    assert(string_views(targets@) =~= seq![ref_id@]);
    if reg.confirmation_consume(repo_id, version, "branch_delete", targets.as_slice(), token, now).is_err() {
        return fail(not_confirmed());
    }
    (
        DeleteFlow { wait: DeleteWait::Refs, repo_id: string_lit(repo_id), ref_id: string_lit(ref_id) },
        DeleteAsk::ListRefs,
    )
}

/// Whether `ev` answers what `f` waits for.
pub fn branch_delete_event_fits(f: &DeleteFlow, ev: &DeleteEvent) -> (r: bool)
    ensures
        r == delete_fits(f.wait, *ev),
{
    match ev {
        DeleteEvent::Refs(_) => f.wait == DeleteWait::Refs,
        DeleteEvent::Deleted(_) => f.wait == DeleteWait::Delete,
    }
}

/// One step of a branch delete.
pub fn branch_delete_step(reg: &mut RepoRegistry, f: DeleteFlow, ev: DeleteEvent) -> (r: (
    DeleteFlow,
    DeleteAsk,
))
    requires
        old(reg).wf(),
        delete_fits(f.wait, ev),
    ensures
        final(reg).wf(),
        delete_next(*old(reg), *final(reg), f, ev, r),
{
    match ev {
        DeleteEvent::Refs(Err(e)) => fail(e),
        DeleteEvent::Refs(Ok(refs)) => {
            let target = match find_ref(refs.as_slice(), f.ref_id.as_str()) {
                Ok(t) => t,
                Err(e) => {
                    return fail(e);
                },
            };
            match check_delete_target(&target) {
                Err(e) => fail(e),
                Ok(name) => {
                    let mut g = f;
                    g.wait = DeleteWait::Delete;
                    (g, DeleteAsk::Delete(name))
                },
            }
        },
        DeleteEvent::Deleted(Err(_)) => fail(git_failed("delete the branch")),
        DeleteEvent::Deleted(Ok((ok, stderr))) => {
            if !ok {
                return fail(delete_failure(stderr.as_str()));
            }
            reg.settle(f.repo_id.as_str(), None, None, 1, true);
            (
                DeleteFlow { wait: DeleteWait::Nothing, repo_id: String::new(), ref_id: String::new() },
                DeleteAsk::Done(Ok(())),
            )
        },
    }
}

} // verus!
