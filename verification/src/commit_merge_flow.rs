//! `history_merge_commit`: merge one commit into the current branch. The
//! flow checks the write context, asks that the commit exists, that no
//! merge or rebase is running, reads the branch and HEAD, demands a clean
//! worktree; a commit that is HEAD or already contained is up to date;
//! unrelated histories are refused; otherwise the merge is recorded and
//! run with `--no-ff --no-commit`. Conflicts stop it for review; any other
//! failure is rolled back with `merge --abort`, and the record is cleared
//! only when that abort left no merge behind.

use vstd::prelude::*;
use crate::error::{git_failed, is_error, AppError, ErrorCode, RecoveryAction};
use crate::gate::{check_write_context, write_context_error, SessionInfo};
use crate::merge::{merge_start_abort_outcome, take_chars, MergeRecord};
use crate::domain::RepoState;
use crate::merge_flow::StartOutcome;
use crate::registry::{changed, RepoRegistry};
use crate::text::{concat2, str_eq, string_lit};

verus! {

/// The answer a commit merge waits for.
#[derive(Debug, Clone, Copy, PartialEq, Eq, Structural)]
pub enum CommitMergeWait {
    Oid,
    NoOperation,
    HeadBranch,
    HeadOid,
    Clean,
    MergeBase,
    Ancestor,
    Merged,
    Unmerged,
    Aborted,
    Nothing,
}

/// A commit merge in progress.
pub struct CommitMergeFlow {
    pub wait: CommitMergeWait,
    pub repo_id: String,
    pub oid: String,
    pub current: String,
    pub head: String,
}

/// What the shell does next.
pub enum CommitMergeAsk {
    /// Check that this is an existing commit of the repository.
    CheckOid(String),
    /// Check that no merge or rebase is in progress.
    CheckNoOperation,
    /// The current branch, or the error of a detached or unborn HEAD.
    ReadHeadBranch,
    /// The HEAD commit, or the error of an empty repository.
    ReadHeadOid,
    /// Check that the worktree is clean, naming what needs it.
    CheckClean(String),
    /// `git merge-base HEAD <oid>`.
    MergeBase(String),
    /// `git merge-base --is-ancestor <oid> HEAD`.
    IsAncestor(String),
    /// `git merge --no-ff --no-commit --no-edit <oid>`; the registry
    /// already holds the record and the `Merging` state.
    Merge { record: MergeRecord, oid: String },
    /// Whether the merge left conflicted paths.
    ReadUnmerged,
    /// `git merge --abort`, then whether MERGE_HEAD is still there.
    Abort,
    Done(StartOutcome),
}

/// What the shell found.
pub enum CommitMergeEvent {
    Checked(Result<(), AppError>),
    HeadBranch(Result<String, AppError>),
    HeadOid(Result<String, AppError>),
    MergeBase(Result<bool, AppError>),
    Ancestor(Result<bool, AppError>),
    Merged(Result<bool, AppError>),
    /// Whether the status shows conflicted paths (an unreadable status
    /// shows none).
    Unmerged(bool),
    Aborted(Result<(bool, bool), AppError>),
}

pub open spec fn cm_done(r: (CommitMergeFlow, CommitMergeAsk)) -> bool {
    r.0.wait == CommitMergeWait::Nothing && r.1 is Done
}

/// The flow fails with this error, keeping the merge record.
pub open spec fn cm_fails(r: (CommitMergeFlow, CommitMergeAsk), x: (ErrorCode, Seq<char>, RecoveryAction, bool)) -> bool {
    cm_done(r) && (r.1 matches CommitMergeAsk::Done(StartOutcome::Failed { error, clear_record })
        && !clear_record && is_error(error, x.0, x.1, x.2, x.3))
}

pub open spec fn cm_fails_as(r: (CommitMergeFlow, CommitMergeAsk), e: AppError) -> bool {
    cm_done(r) && r.1 == CommitMergeAsk::Done(StartOutcome::Failed { error: e, clear_record: false })
}

/// What the merge record calls the source.
pub open spec fn commit_label(oid: Seq<char>) -> Seq<char> {
    "commit "@ + take_chars(oid, 7)
}

pub open spec fn cm_start(
    session: Option<SessionInfo>,
    expected_version: u64,
    repo_id: Seq<char>,
    oid: Seq<char>,
    r: (CommitMergeFlow, CommitMergeAsk),
) -> bool {
    match write_context_error(session, expected_version, "start merges"@) {
        Some(x) => cm_fails(r, x),
        None => r.0.wait == CommitMergeWait::Oid && r.0.repo_id@ == repo_id && r.0.oid@ == oid && (r.1 matches CommitMergeAsk::CheckOid(
            o,
        ) && o@ == oid),
    }
}

pub open spec fn cm_fits(w: CommitMergeWait, ev: CommitMergeEvent) -> bool {
    match ev {
        CommitMergeEvent::Checked(_) => w == CommitMergeWait::Oid || w == CommitMergeWait::NoOperation
            || w == CommitMergeWait::Clean,
        CommitMergeEvent::HeadBranch(_) => w == CommitMergeWait::HeadBranch,
        CommitMergeEvent::HeadOid(_) => w == CommitMergeWait::HeadOid,
        CommitMergeEvent::MergeBase(_) => w == CommitMergeWait::MergeBase,
        CommitMergeEvent::Ancestor(_) => w == CommitMergeWait::Ancestor,
        CommitMergeEvent::Merged(_) => w == CommitMergeWait::Merged,
        CommitMergeEvent::Unmerged(_) => w == CommitMergeWait::Unmerged,
        CommitMergeEvent::Aborted(_) => w == CommitMergeWait::Aborted,
    }
}

/// The flow waits for `w`, keeping what it learnt.
pub open spec fn cm_moves(s: CommitMergeFlow, r: (CommitMergeFlow, CommitMergeAsk), w: CommitMergeWait) -> bool {
    r.0.wait == w && r.0.repo_id@ == s.repo_id@ && r.0.oid@ == s.oid@ && r.0.current@ == s.current@
        && r.0.head@ == s.head@
}

/// One step of a commit merge: the Git answers and what the flow asks
/// next, with what it does to the registry. The merge is recorded (state
/// `Merging`) before Git runs it. Every end after Git was asked to merge
/// takes a fresh snapshot, which moves the version on and drops the
/// repository's pinned history walks; a finished rollback also forgets the
/// record and returns the state to `Normal`. An up-to-date commit moves
/// the version on once before its fresh snapshot. Every other step leaves
/// the registry as it was.
pub open spec fn cm_next(
    reg0: RepoRegistry,
    reg1: RepoRegistry,
    s: CommitMergeFlow,
    ev: CommitMergeEvent,
    r: (CommitMergeFlow, CommitMergeAsk),
) -> bool {
    let repo = s.repo_id@;
    &&& cm_flow_next(s, ev, r)
    &&& match r.1 {
        CommitMergeAsk::Done(StartOutcome::UpToDate) => changed(reg0, reg1, repo, None, None, 2, true),
        CommitMergeAsk::Merge { record, .. } => changed(
            reg0,
            reg1,
            repo,
            Some(Some(record)),
            Some(RepoState::Merging),
            0,
            false,
        ),
        CommitMergeAsk::Done(StartOutcome::Started { .. }) => changed(reg0, reg1, repo, None, None, 1, true),
        CommitMergeAsk::Done(StartOutcome::Failed { clear_record: true, .. }) => changed(
            reg0,
            reg1,
            repo,
            Some(None),
            Some(RepoState::Normal),
            1,
            true,
        ),
        CommitMergeAsk::Done(StartOutcome::Failed { clear_record: false, .. }) => if ev matches CommitMergeEvent::Unmerged(
            true,
        ) || ev is Aborted {
            changed(reg0, reg1, repo, None, None, 1, true)
        } else {
            reg1 == reg0
        },
        _ => reg1 == reg0,
    }
}

/// The flow part of one step.
pub open spec fn cm_flow_next(s: CommitMergeFlow, ev: CommitMergeEvent, r: (CommitMergeFlow, CommitMergeAsk)) -> bool {
    match ev {
        CommitMergeEvent::Checked(Err(e)) => cm_fails_as(r, e),
        CommitMergeEvent::Checked(Ok(())) => if s.wait == CommitMergeWait::Oid {
            cm_moves(s, r, CommitMergeWait::NoOperation) && r.1 is CheckNoOperation
        } else if s.wait == CommitMergeWait::NoOperation {
            cm_moves(s, r, CommitMergeWait::HeadBranch) && r.1 is ReadHeadBranch
        } else if s.oid@ == s.head@ {
            cm_done(r) && r.1 == CommitMergeAsk::Done(StartOutcome::UpToDate)
        } else {
            cm_moves(s, r, CommitMergeWait::MergeBase) && (r.1 matches CommitMergeAsk::MergeBase(o)
                && o@ == s.oid@)
        },
        CommitMergeEvent::HeadBranch(Err(e)) => cm_fails_as(r, e),
        CommitMergeEvent::HeadBranch(Ok(b)) => r.0.wait == CommitMergeWait::HeadOid && r.0.repo_id@
            == s.repo_id@ && r.0.oid@ == s.oid@ && r.0.current@ == b@ && r.1 is ReadHeadOid,
        CommitMergeEvent::HeadOid(Err(e)) => cm_fails_as(r, e),
        CommitMergeEvent::HeadOid(Ok(h)) => r.0.wait == CommitMergeWait::Clean && r.0.repo_id@
            == s.repo_id@ && r.0.oid@ == s.oid@ && r.0.current@ == s.current@ && r.0.head@ == h@ && (r.1 matches CommitMergeAsk::CheckClean(
            what,
        ) && what@ == "Merges start from a clean worktree; stash or commit first"@),
        CommitMergeEvent::MergeBase(Err(_)) => cm_fails(
            r,
            (ErrorCode::GIT_ERROR, "Git could not "@ + "compare the commits"@, RecoveryAction::Refresh, true),
        ),
        CommitMergeEvent::MergeBase(Ok(related)) => if !related {
            cm_fails(
                r,
                (
                    ErrorCode::INVALID_ARGUMENT,
                    "Unrelated histories are never merged automatically"@,
                    RecoveryAction::InspectState,
                    false,
                ),
            )
        } else {
            cm_moves(s, r, CommitMergeWait::Ancestor) && (r.1 matches CommitMergeAsk::IsAncestor(o)
                && o@ == s.oid@)
        },
        CommitMergeEvent::Ancestor(Err(_)) => cm_fails(
            r,
            (ErrorCode::GIT_ERROR, "Git could not "@ + "compare the commits"@, RecoveryAction::Refresh, true),
        ),
        CommitMergeEvent::Ancestor(Ok(contained)) => if contained {
            cm_done(r) && r.1 == CommitMergeAsk::Done(StartOutcome::UpToDate)
        } else {
            cm_moves(s, r, CommitMergeWait::Merged) && (r.1 matches CommitMergeAsk::Merge { record, oid }
                && oid@ == s.oid@ && record.pre_head@ == s.head@ && record.source_oid@ == s.oid@
                && record.source_label@ == commit_label(s.oid@) && record.current_label@
                == s.current@)
        },
        CommitMergeEvent::Merged(Err(_)) => cm_fails(
            r,
            (ErrorCode::GIT_ERROR, "Git could not "@ + "merge the commit"@, RecoveryAction::Refresh, true),
        ),
        CommitMergeEvent::Merged(Ok(ok)) => if ok {
            cm_done(r) && r.1 == CommitMergeAsk::Done(StartOutcome::Started { conflicted: false })
        } else {
            cm_moves(s, r, CommitMergeWait::Unmerged) && r.1 is ReadUnmerged
        },
        CommitMergeEvent::Unmerged(u) => if u {
            cm_fails(
                r,
                (
                    ErrorCode::CONFLICTS_PRESENT,
                    "The merge stopped on conflicts; resolve them, then complete the merge"@,
                    RecoveryAction::ResolveConflict,
                    false,
                ),
            )
        } else {
            cm_moves(s, r, CommitMergeWait::Aborted) && r.1 is Abort
        },
        CommitMergeEvent::Aborted(result) => {
            let cleaned = match result {
                Ok(a) => a.0 && !a.1,
                Err(_) => false,
            };
            cm_done(r) && (r.1 matches CommitMergeAsk::Done(StartOutcome::Failed { error, clear_record })
                && clear_record == cleaned && (cleaned ==> is_error(
                error,
                ErrorCode::GIT_ERROR,
                "Git could not "@ + "merge the commit"@,
                RecoveryAction::Refresh,
                true,
            )) && (!cleaned ==> is_error(
                error,
                ErrorCode::GIT_ERROR,
                "The merge failed and automatic cleanup did not finish; inspect the repository before retrying"@,
                RecoveryAction::InspectState,
                true,
            )))
        },
    }
}

fn moved(s: &CommitMergeFlow, wait: CommitMergeWait) -> (t: CommitMergeFlow)
    ensures
        t.wait == wait,
        t.repo_id@ == s.repo_id@,
        t.oid@ == s.oid@,
        t.current@ == s.current@,
        t.head@ == s.head@,
{
    CommitMergeFlow {
        wait,
        repo_id: string_lit(s.repo_id.as_str()),
        oid: string_lit(s.oid.as_str()),
        current: string_lit(s.current.as_str()),
        head: string_lit(s.head.as_str()),
    }
}

fn ended(o: StartOutcome) -> (r: (CommitMergeFlow, CommitMergeAsk))
    ensures
        cm_done(r),
        r.1 == CommitMergeAsk::Done(o),
{
    (
        CommitMergeFlow {
            wait: CommitMergeWait::Nothing,
            repo_id: String::new(),
            oid: String::new(),
            current: String::new(),
            head: String::new(),
        },
        CommitMergeAsk::Done(o),
    )
}

fn fail(e: AppError) -> (r: (CommitMergeFlow, CommitMergeAsk))
    ensures
        cm_fails_as(r, e),
{
    ended(StartOutcome::Failed { error: e, clear_record: false })
}

/// Start merging commit `oid` into the current branch.
pub fn merge_commit_begin(
    session: Option<&SessionInfo>,
    expected_version: u64,
    repo_id: &str,
    oid: &str,
) -> (r: (CommitMergeFlow, CommitMergeAsk))
    ensures
        cm_start(
            match session {
                Some(s) => Some(*s),
                None => None,
            },
            expected_version,
            repo_id@,
            oid@,
            r,
        ),
{
    if let Err(e) = check_write_context(session, expected_version, "start merges") {
        return fail(e);
    }
    (
        CommitMergeFlow {
            wait: CommitMergeWait::Oid,
            repo_id: string_lit(repo_id),
            oid: string_lit(oid),
            current: String::new(),
            head: String::new(),
        },
        CommitMergeAsk::CheckOid(string_lit(oid)),
    )
}

/// Whether `ev` answers what `s` waits for.
pub fn merge_commit_event_fits(s: &CommitMergeFlow, ev: &CommitMergeEvent) -> (r: bool)
    ensures
        r == cm_fits(s.wait, *ev),
{
    match ev {
        CommitMergeEvent::Checked(_) => s.wait == CommitMergeWait::Oid || s.wait
            == CommitMergeWait::NoOperation || s.wait == CommitMergeWait::Clean,
        CommitMergeEvent::HeadBranch(_) => s.wait == CommitMergeWait::HeadBranch,
        CommitMergeEvent::HeadOid(_) => s.wait == CommitMergeWait::HeadOid,
        CommitMergeEvent::MergeBase(_) => s.wait == CommitMergeWait::MergeBase,
        CommitMergeEvent::Ancestor(_) => s.wait == CommitMergeWait::Ancestor,
        CommitMergeEvent::Merged(_) => s.wait == CommitMergeWait::Merged,
        CommitMergeEvent::Unmerged(_) => s.wait == CommitMergeWait::Unmerged,
        CommitMergeEvent::Aborted(_) => s.wait == CommitMergeWait::Aborted,
    }
}

fn commit_label_text(oid: &str) -> (r: String)
    ensures
        r@ == commit_label(oid@),
{
    let short = crate::merge::first_chars(oid, 7);
    concat2("commit ", short.as_str())
}

/// One step of a commit merge.
#[verifier::rlimit(40)]
pub fn merge_commit_step(reg: &mut RepoRegistry, s: CommitMergeFlow, ev: CommitMergeEvent) -> (r: (
    CommitMergeFlow,
    CommitMergeAsk,
))
    requires
        old(reg).wf(),
        cm_fits(s.wait, ev),
    ensures
        final(reg).wf(),
        cm_next(*old(reg), *final(reg), s, ev, r),
{
    match ev {
        CommitMergeEvent::Checked(Err(e)) => fail(e),
        CommitMergeEvent::Checked(Ok(())) => {
            if s.wait == CommitMergeWait::Oid {
                (moved(&s, CommitMergeWait::NoOperation), CommitMergeAsk::CheckNoOperation)
            } else if s.wait == CommitMergeWait::NoOperation {
                (moved(&s, CommitMergeWait::HeadBranch), CommitMergeAsk::ReadHeadBranch)
            } else if str_eq(s.oid.as_str(), s.head.as_str()) {
                reg.settle(s.repo_id.as_str(), None, None, 2, true);
                ended(StartOutcome::UpToDate)
            } else {
                let o = string_lit(s.oid.as_str());
                (moved(&s, CommitMergeWait::MergeBase), CommitMergeAsk::MergeBase(o))
            }
        },
        CommitMergeEvent::HeadBranch(Err(e)) => fail(e),
        CommitMergeEvent::HeadBranch(Ok(b)) => {
            let mut t = moved(&s, CommitMergeWait::HeadOid);
            t.current = b;
            (t, CommitMergeAsk::ReadHeadOid)
        },
        CommitMergeEvent::HeadOid(Err(e)) => fail(e),
        CommitMergeEvent::HeadOid(Ok(h)) => {
            let mut t = moved(&s, CommitMergeWait::Clean);
            t.head = h;
            (t, CommitMergeAsk::CheckClean(string_lit("Merges start from a clean worktree; stash or commit first")))
        },
        CommitMergeEvent::MergeBase(Err(_)) => fail(git_failed("compare the commits")),
        CommitMergeEvent::MergeBase(Ok(related)) => {
            if !related {
                fail(crate::error::bad_request_str("Unrelated histories are never merged automatically"))
            } else {
                let o = string_lit(s.oid.as_str());
                (moved(&s, CommitMergeWait::Ancestor), CommitMergeAsk::IsAncestor(o))
            }
        },
        CommitMergeEvent::Ancestor(Err(_)) => fail(git_failed("compare the commits")),
        CommitMergeEvent::Ancestor(Ok(contained)) => {
            if contained {
                reg.settle(s.repo_id.as_str(), None, None, 2, true);
                ended(StartOutcome::UpToDate)
            } else {
                let record = MergeRecord {
                    pre_head: string_lit(s.head.as_str()),
                    source_oid: string_lit(s.oid.as_str()),
                    source_label: commit_label_text(s.oid.as_str()),
                    current_label: string_lit(s.current.as_str()),
                };
                let o = string_lit(s.oid.as_str());
                let kept = MergeRecord {
                    pre_head: record.pre_head.clone(),
                    source_oid: record.source_oid.clone(),
                    source_label: record.source_label.clone(),
                    current_label: record.current_label.clone(),
                };
                reg.settle(s.repo_id.as_str(), Some(Some(kept)), Some(RepoState::Merging), 0, false);
                (moved(&s, CommitMergeWait::Merged), CommitMergeAsk::Merge { record, oid: o })
            }
        },
        CommitMergeEvent::Merged(Err(_)) => fail(git_failed("merge the commit")),
        CommitMergeEvent::Merged(Ok(ok)) => {
            if ok {
                reg.settle(s.repo_id.as_str(), None, None, 1, true);
                ended(StartOutcome::Started { conflicted: false })
            } else {
                (moved(&s, CommitMergeWait::Unmerged), CommitMergeAsk::ReadUnmerged)
            }
        },
        CommitMergeEvent::Unmerged(u) => {
            if u {
                reg.settle(s.repo_id.as_str(), None, None, 1, true);
                fail(
                    AppError::new(
                        ErrorCode::CONFLICTS_PRESENT,
                        string_lit("The merge stopped on conflicts; resolve them, then complete the merge"),
                        RecoveryAction::ResolveConflict,
                        false,
                    ),
                )
            } else {
                (moved(&s, CommitMergeWait::Aborted), CommitMergeAsk::Abort)
            }
        },
        CommitMergeEvent::Aborted(result) => {
            let (ok, live) = match result {
                Ok(a) => a,
                Err(_) => (false, true),
            };
            if ok && !live {
                reg.settle(s.repo_id.as_str(), Some(None), Some(RepoState::Normal), 1, true);
                ended(StartOutcome::Failed { error: git_failed("merge the commit"), clear_record: true })
            } else {
                let (e, _) = merge_start_abort_outcome(ok, live);
                reg.settle(s.repo_id.as_str(), None, None, 1, true);
                ended(StartOutcome::Failed { error: e, clear_record: false })
            }
        },
    }
}

} // verus!
