//! `stash_apply` and `stash_pop`. The flow checks the entry's id shape,
//! the session, trust and version; asks what the entry resolves to now and
//! refuses a reordered list; asks Git to apply it (never `--index`). A
//! failed apply that left conflicts keeps the entry and puts the repository
//! in the `StashConflict` state; any other failure is reported. A pop then
//! drops the entry and checks that the drop took the applied one. Every
//! outcome after the identity read moves the version on; the ones that
//! changed the worktree also drop the repository's pinned history walks.

use vstd::prelude::*;
use crate::domain::{RepoState, TrustState};
use crate::error::{is_error, session_missing, stale_state, trust_required, AppError, ErrorCode, RecoveryAction};
use crate::registry::{changed, RepoRegistry};
use crate::stash::{
    after_apply, bad_stash_id, check_stash_identity, lists_oid, parse_stash_index, stash_failed,
    stash_index_of, StashApplyMode, StashEntry,
};
use crate::text::string_lit;

verus! {

/// The answer a stash apply waits for.
#[derive(Debug, Clone, Copy, PartialEq, Eq, Structural)]
pub enum ApplyWait {
    Resolve,
    Apply,
    Unmerged,
    Drop,
    List,
    Nothing,
}

/// A stash apply or pop in progress.
pub struct ApplyFlow {
    pub wait: ApplyWait,
    pub repo_id: String,
    pub stash_id: String,
    pub expected_oid: String,
    pub mode: StashApplyMode,
    pub drop_ok: bool,
}

/// How an apply ended: whether the entry is still listed, whether conflicts
/// remain, and the partial-pop error.
pub struct ApplyOutcome {
    pub retained: bool,
    pub conflicted: bool,
    pub drop_error: Option<AppError>,
}

/// What the shell does next.
pub enum ApplyAsk {
    /// The oid the entry resolves to now, `None` when it is gone.
    Resolve(String),
    /// `git stash apply <id>`.
    Apply(String),
    /// Whether the index holds unmerged entries.
    ReadUnmerged,
    /// `git stash drop <id>`.
    Drop(String),
    /// The stash list.
    ListStash,
    Done(Result<ApplyOutcome, AppError>),
}

/// What the shell found; `Err` when Git could not run.
pub enum ApplyEvent {
    Resolved(Result<Option<String>, AppError>),
    Applied(Result<bool, AppError>),
    Unmerged(Result<bool, AppError>),
    Dropped(Result<bool, AppError>),
    Listed(Result<Vec<StashEntry>, AppError>),
}

pub open spec fn apply_fails(r: (ApplyFlow, ApplyAsk), x: (ErrorCode, Seq<char>, RecoveryAction, bool)) -> bool {
    r.0.wait == ApplyWait::Nothing && (r.1 matches ApplyAsk::Done(Err(e)) && is_error(e, x.0, x.1, x.2, x.3))
}

pub open spec fn apply_fails_as(r: (ApplyFlow, ApplyAsk), e: AppError) -> bool {
    r.0.wait == ApplyWait::Nothing && r.1 == ApplyAsk::Done(Err(e))
}

/// The flow moves on to `w`, keeping its request.
pub open spec fn apply_moves(f: ApplyFlow, r: (ApplyFlow, ApplyAsk), w: ApplyWait) -> bool {
    &&& r.0.wait == w
    &&& r.0.repo_id@ == f.repo_id@
    &&& r.0.stash_id@ == f.stash_id@
    &&& r.0.expected_oid@ == f.expected_oid@
    &&& r.0.mode == f.mode
}

pub open spec fn stash_failure() -> (ErrorCode, Seq<char>, RecoveryAction, bool) {
    (ErrorCode::GIT_ERROR, "Git could not finish the stash operation"@, RecoveryAction::Refresh, true)
}

pub open spec fn apply_start(
    reg: RepoRegistry,
    repo_id: Seq<char>,
    expected_version: u64,
    stash_id: Seq<char>,
    expected_oid: Seq<char>,
    mode: StashApplyMode,
    r: (ApplyFlow, ApplyAsk),
) -> bool {
    if stash_index_of(stash_id) is None {
        apply_fails(
            r,
            (
                ErrorCode::INVALID_ARGUMENT,
                "Unknown stash entry; refresh the stash list and retry"@,
                RecoveryAction::InspectState,
                false,
            ),
        )
    } else {
        match reg.session_index(repo_id) {
            None => apply_fails(
                r,
                (
                    ErrorCode::REPO_UNAVAILABLE,
                    "Repository session is no longer open"@,
                    RecoveryAction::ChooseRepository,
                    false,
                ),
            ),
            Some(i) => if reg.sessions()[i].trust != TrustState::Trusted {
                apply_fails(
                    r,
                    (
                        ErrorCode::TRUST_REQUIRED,
                        "Trust this repository to "@ + "stash changes"@,
                        RecoveryAction::InspectState,
                        false,
                    ),
                )
            } else if reg.sessions()[i].version != expected_version {
                apply_fails(
                    r,
                    (
                        ErrorCode::STALE_STATE,
                        "The repository changed under you; refresh and retry"@,
                        RecoveryAction::Refresh,
                        false,
                    ),
                )
            } else {
                &&& r.0.wait == ApplyWait::Resolve
                &&& r.0.repo_id@ == repo_id
                &&& r.0.stash_id@ == stash_id
                &&& r.0.expected_oid@ == expected_oid
                &&& r.0.mode == mode
                &&& r.1 matches ApplyAsk::Resolve(id) && id@ == stash_id
            },
        }
    }
}

pub open spec fn apply_fits(w: ApplyWait, ev: ApplyEvent) -> bool {
    match ev {
        ApplyEvent::Resolved(_) => w == ApplyWait::Resolve,
        ApplyEvent::Applied(_) => w == ApplyWait::Apply,
        ApplyEvent::Unmerged(_) => w == ApplyWait::Unmerged,
        ApplyEvent::Dropped(_) => w == ApplyWait::Drop,
        ApplyEvent::Listed(_) => w == ApplyWait::List,
    }
}

/// A clean apply ends: the repository is `Normal` again, the version moves
/// on, its pinned walks are dropped, and the outcome says whether the
/// entry stays.
pub open spec fn applied_cleanly(
    reg0: RepoRegistry,
    reg1: RepoRegistry,
    f: ApplyFlow,
    retained: bool,
    r: (ApplyFlow, ApplyAsk),
) -> bool {
    &&& changed(reg0, reg1, f.repo_id@, None, Some(RepoState::Normal), 1, true)
    &&& r.0.wait == ApplyWait::Nothing
    &&& r.1 matches ApplyAsk::Done(Ok(o)) && o.retained == retained && !o.conflicted
}

/// One step of a stash apply.
pub open spec fn apply_next(
    reg0: RepoRegistry,
    reg1: RepoRegistry,
    f: ApplyFlow,
    ev: ApplyEvent,
    r: (ApplyFlow, ApplyAsk),
) -> bool {
    let repo = f.repo_id@;
    match ev {
        ApplyEvent::Resolved(Err(e)) => reg1 == reg0 && apply_fails_as(r, e),
        ApplyEvent::Resolved(Ok(actual)) => if !(actual matches Some(a) && a@ == f.expected_oid@) {
            changed(reg0, reg1, repo, None, None, 1, false) && apply_fails(
                r,
                (
                    ErrorCode::STALE_STATE,
                    "The repository changed under you; refresh and retry"@,
                    RecoveryAction::Refresh,
                    false,
                ),
            )
        } else {
            reg1 == reg0 && apply_moves(f, r, ApplyWait::Apply) && (r.1 matches ApplyAsk::Apply(id)
                && id@ == f.stash_id@)
        },
        ApplyEvent::Applied(Err(e)) => reg1 == reg0 && apply_fails_as(r, e),
        ApplyEvent::Applied(Ok(ok)) => if !ok {
            reg1 == reg0 && apply_moves(f, r, ApplyWait::Unmerged) && r.1 is ReadUnmerged
        } else if f.mode == StashApplyMode::Pop {
            reg1 == reg0 && apply_moves(f, r, ApplyWait::Drop) && (r.1 matches ApplyAsk::Drop(id) && id@
                == f.stash_id@)
        } else {
            applied_cleanly(reg0, reg1, f, true, r) && (r.1 matches ApplyAsk::Done(Ok(o))
                && o.drop_error is None)
        },
        ApplyEvent::Unmerged(Err(e)) => reg1 == reg0 && apply_fails_as(r, e),
        ApplyEvent::Unmerged(Ok(u)) => if u {
            &&& changed(reg0, reg1, repo, None, Some(RepoState::StashConflict), 1, true)
            &&& r.0.wait == ApplyWait::Nothing
            &&& r.1 matches ApplyAsk::Done(Ok(o)) && o.retained && o.conflicted && o.drop_error is None
        } else {
            changed(reg0, reg1, repo, None, None, 1, false) && apply_fails(r, stash_failure())
        },
        ApplyEvent::Dropped(Err(e)) => reg1 == reg0 && apply_fails_as(r, e),
        ApplyEvent::Dropped(Ok(ok)) => reg1 == reg0 && apply_moves(f, r, ApplyWait::List) && r.0.drop_ok
            == ok && r.1 is ListStash,
        ApplyEvent::Listed(Err(e)) => reg1 == reg0 && apply_fails_as(r, e),
        ApplyEvent::Listed(Ok(entries)) => {
            let failed = !f.drop_ok || lists_oid(entries@, f.expected_oid@);
            &&& applied_cleanly(reg0, reg1, f, failed, r)
            &&& failed ==> (r.1 matches ApplyAsk::Done(Ok(o)) && o.drop_error matches Some(e)
                && is_error(
                e,
                ErrorCode::GIT_ERROR,
                "Stash applied, but dropping the entry failed; it was kept"@,
                RecoveryAction::Refresh,
                true,
            ))
            &&& !failed ==> (r.1 matches ApplyAsk::Done(Ok(o)) && o.drop_error is None)
        },
    }
}

fn fail(e: AppError) -> (r: (ApplyFlow, ApplyAsk))
    ensures
        apply_fails_as(r, e),
{
    (
        ApplyFlow {
            wait: ApplyWait::Nothing,
            repo_id: String::new(),
            stash_id: String::new(),
            expected_oid: String::new(),
            mode: StashApplyMode::Apply,
            drop_ok: false,
        },
        ApplyAsk::Done(Err(e)),
    )
}

fn finish(o: ApplyOutcome) -> (r: (ApplyFlow, ApplyAsk))
    ensures
        r.0.wait == ApplyWait::Nothing,
        r.1 == ApplyAsk::Done(Ok(o)),
{
    (
        ApplyFlow {
            wait: ApplyWait::Nothing,
            repo_id: String::new(),
            stash_id: String::new(),
            expected_oid: String::new(),
            mode: StashApplyMode::Apply,
            drop_ok: false,
        },
        ApplyAsk::Done(Ok(o)),
    )
}

/// Start applying (or popping) the entry `stash_id`, which the caller saw
/// at `expected_oid`.
pub fn stash_apply_begin(
    reg: &RepoRegistry,
    repo_id: &str,
    expected_version: u64,
    stash_id: &str,
    expected_oid: &str,
    mode: StashApplyMode,
) -> (r: (ApplyFlow, ApplyAsk))
    requires
        reg.wf(),
    ensures
        apply_start(*reg, repo_id@, expected_version, stash_id@, expected_oid@, mode, r),
{
    if parse_stash_index(stash_id).is_none() {
        return fail(bad_stash_id());
    }
    let session = match reg.session(repo_id) {
        Some(s) => s,
        None => {
            return fail(session_missing());
        },
    };
    if session.trust != TrustState::Trusted {
        return fail(trust_required("stash changes"));
    }
    if session.version != expected_version {
        return fail(stale_state());
    }
    (
        ApplyFlow {
            wait: ApplyWait::Resolve,
            repo_id: string_lit(repo_id),
            stash_id: string_lit(stash_id),
            expected_oid: string_lit(expected_oid),
            mode,
            drop_ok: false,
        },
        ApplyAsk::Resolve(string_lit(stash_id)),
    )
}

/// Whether `ev` answers what `f` waits for.
pub fn stash_apply_event_fits(f: &ApplyFlow, ev: &ApplyEvent) -> (r: bool)
    ensures
        r == apply_fits(f.wait, *ev),
{
    match ev {
        ApplyEvent::Resolved(_) => f.wait == ApplyWait::Resolve,
        ApplyEvent::Applied(_) => f.wait == ApplyWait::Apply,
        ApplyEvent::Unmerged(_) => f.wait == ApplyWait::Unmerged,
        ApplyEvent::Dropped(_) => f.wait == ApplyWait::Drop,
        ApplyEvent::Listed(_) => f.wait == ApplyWait::List,
    }
}

/// One step of a stash apply.
pub fn stash_apply_step(reg: &mut RepoRegistry, f: ApplyFlow, ev: ApplyEvent) -> (r: (ApplyFlow, ApplyAsk))
    requires
        old(reg).wf(),
        apply_fits(f.wait, ev),
    ensures
        final(reg).wf(),
        apply_next(*old(reg), *final(reg), f, ev, r),
{
    match ev {
        ApplyEvent::Resolved(Err(e)) => fail(e),
        ApplyEvent::Resolved(Ok(actual)) => {
            let checked = match &actual {
                Some(a) => check_stash_identity(Some(a.as_str()), f.expected_oid.as_str()),
                None => check_stash_identity(None, f.expected_oid.as_str()),
            };
            if let Err(e) = checked {
                reg.settle(f.repo_id.as_str(), None, None, 1, false);
                return fail(e);
            }
            let id = string_lit(f.stash_id.as_str());
            let mut g = f;
            g.wait = ApplyWait::Apply;
            (g, ApplyAsk::Apply(id))
        },
        ApplyEvent::Applied(Err(e)) => fail(e),
        ApplyEvent::Applied(Ok(ok)) => {
            if !ok {
                let mut g = f;
                g.wait = ApplyWait::Unmerged;
                return (g, ApplyAsk::ReadUnmerged);
            }
            if f.mode == StashApplyMode::Pop {
                let id = string_lit(f.stash_id.as_str());
                let mut g = f;
                g.wait = ApplyWait::Drop;
                (g, ApplyAsk::Drop(id))
            } else {
                let (retained, drop_error) = after_apply(f.mode, true, &[], f.expected_oid.as_str());
                reg.settle(f.repo_id.as_str(), None, Some(RepoState::Normal), 1, true);
                finish(ApplyOutcome { retained, conflicted: false, drop_error })
            }
        },
        ApplyEvent::Unmerged(Err(e)) => fail(e),
        ApplyEvent::Unmerged(Ok(u)) => {
            if u {
                reg.settle(f.repo_id.as_str(), None, Some(RepoState::StashConflict), 1, true);
                finish(ApplyOutcome { retained: true, conflicted: true, drop_error: None })
            } else {
                reg.settle(f.repo_id.as_str(), None, None, 1, false);
                fail(stash_failed())
            }
        },
        ApplyEvent::Dropped(Err(e)) => fail(e),
        ApplyEvent::Dropped(Ok(ok)) => {
            let mut g = f;
            g.wait = ApplyWait::List;
            g.drop_ok = ok;
            (g, ApplyAsk::ListStash)
        },
        ApplyEvent::Listed(Err(e)) => fail(e),
        ApplyEvent::Listed(Ok(entries)) => {
            let (retained, drop_error) = after_apply(
                StashApplyMode::Pop,
                f.drop_ok,
                entries.as_slice(),
                f.expected_oid.as_str(),
            );
            reg.settle(f.repo_id.as_str(), None, Some(RepoState::Normal), 1, true);
            finish(ApplyOutcome { retained, conflicted: false, drop_error })
        },
    }
}

} // verus!
