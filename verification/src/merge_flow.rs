//! `merge_start` as a sequence of Git reads and writes. The flow checks the
//! session and that no merge is in flight, reads the branch and HEAD (which
//! must be the commit the user confirmed), demands a tracked-clean worktree,
//! pins the source to an exact commit, refuses unrelated histories, treats
//! an ancestor source as already up to date, and otherwise records the
//! merge and runs `merge --no-ff --no-commit`. A failure without conflicts
//! is rolled back with `merge --abort`; the record is cleared only when that
//! abort left no merge behind.

use vstd::prelude::*;
use crate::error::bad;
use crate::commit::{commit_error, commit_failure_error, CommitFailure};
use crate::error::{is_error, AppError, ErrorCode, RecoveryAction};
use crate::gate::{check_write_context, write_context_error, SessionInfo};
use crate::history_actions::check_related_histories;
use crate::merge::{
    check_identity, check_merge_live, check_merge_message, check_no_unmerged, has_two_parents,
    merge_message, merge_message_error, merge_message_text, opt_nonempty, word_count,
    check_confirmed_head, check_no_merge_in_progress, check_source_id, check_tracked_clean,
    merge_failed, merge_head_branch, merge_head_oid, merge_source, merge_start_abort_outcome,
    pick_merge_source, source_commit_rev, source_resolved, MergeRecord,
};
use crate::domain::RepoState;
use crate::registry::{changed, RepoRegistry};
use crate::text::{str_eq, string_lit, string_of, trim, utf8_len};

verus! {

/// What one Git command printed.
pub struct GitOut {
    pub success: bool,
    pub stdout: String,
}

/// The answer a merge start waits for.
#[derive(Debug, Clone, Copy, PartialEq, Eq, Structural)]
pub enum StartWait {
    HeadBranch,
    HeadOid,
    TrackedClean,
    Refs,
    Resolved,
    MergeBase,
    Ancestor,
    Merged,
    Unmerged,
    Aborted,
    Nothing,
}

/// A merge start in progress, with what it has learnt so far.
pub struct StartFlow {
    pub wait: StartWait,
    pub repo_id: String,
    pub source_ref_id: String,
    pub confirmed_oid: String,
    pub current: String,
    pub head: String,
    pub source_oid: String,
    pub source_label: String,
}

/// How a merge start ended.
pub enum StartOutcome {
    /// Nothing to merge; the shell bumps the version.
    UpToDate,
    /// The merge stopped for review, with or without conflicts.
    Started { conflicted: bool },
    /// It failed; `clear_record` says the rollback finished, so the merge
    /// record is forgotten and the state is normal again.
    Failed { error: AppError, clear_record: bool },
}

/// What the shell does next.
pub enum StartAsk {
    ReadHeadBranch,
    ReadHeadOid,
    ReadTrackedClean,
    /// `git for-each-ref --format=%(refname)`.
    ReadRefs,
    /// `git rev-parse --verify <rev>`.
    Resolve(String),
    /// `git merge-base HEAD <oid>`.
    MergeBase(String),
    /// `git merge-base --is-ancestor <oid> HEAD`.
    IsAncestor(String),
    /// Record the merge (state `Merging`), then `git merge --no-ff
    /// --no-commit --no-edit <oid>`.
    Merge { record: MergeRecord, oid: String },
    /// Whether the index holds unmerged entries.
    ReadUnmerged,
    /// `git merge --abort`, then whether MERGE_HEAD is still there.
    Abort,
    Done(StartOutcome),
}

/// What Git answered; `Err` is a command that could not run.
pub enum StartEvent {
    HeadBranch(Result<GitOut, AppError>),
    HeadOid(Result<GitOut, AppError>),
    TrackedClean(Result<bool, AppError>),
    Refs(Result<GitOut, AppError>),
    Resolved(Result<GitOut, AppError>),
    MergeBase(Result<bool, AppError>),
    Ancestor(Result<bool, AppError>),
    Merged(Result<bool, AppError>),
    Unmerged(Result<bool, CommitFailure>),
    /// The abort's success and whether a merge is still live after it.
    Aborted(Result<(bool, bool), AppError>),
}

pub open spec fn start_done(r: (StartFlow, StartAsk)) -> bool {
    r.0.wait == StartWait::Nothing && r.1 is Done
}

/// The flow fails with this error, keeping the merge record.
pub open spec fn start_fails(r: (StartFlow, StartAsk), x: (ErrorCode, Seq<char>, RecoveryAction, bool)) -> bool {
    start_done(r) && (r.1 matches StartAsk::Done(StartOutcome::Failed { error, clear_record }) && !clear_record
        && is_error(error, x.0, x.1, x.2, x.3))
}

/// The flow fails with exactly the error `e`, keeping the merge record.
pub open spec fn start_fails_as(r: (StartFlow, StartAsk), e: AppError) -> bool {
    start_done(r) && r.1 == StartAsk::Done(StartOutcome::Failed { error: e, clear_record: false })
}

/// The flow moved to `w`, keeping what it knew except as stated.
pub open spec fn keeps(s: StartFlow, t: StartFlow) -> bool {
    &&& t.source_ref_id == s.source_ref_id
    &&& t.confirmed_oid == s.confirmed_oid
}

/// Starting: session, then no merge in flight; then the branch is read.
pub open spec fn start_begin(
    session: Option<SessionInfo>,
    expected_version: u64,
    merge_live: bool,
    source_ref_id: Seq<char>,
    confirmed: Seq<char>,
    r: (StartFlow, StartAsk),
) -> bool {
    match write_context_error(session, expected_version, "start merges"@) {
        Some(x) => start_fails(r, x),
        None => if merge_live {
            start_fails(r, bad("A merge is already in progress; complete or abort it first"@))
        } else {
            r.0.wait == StartWait::HeadBranch && r.1 is ReadHeadBranch && r.0.source_ref_id@
                == source_ref_id && r.0.confirmed_oid@ == confirmed
        },
    }
}

pub open spec fn start_fits(w: StartWait, ev: StartEvent) -> bool {
    match ev {
        StartEvent::HeadBranch(_) => w == StartWait::HeadBranch,
        StartEvent::HeadOid(_) => w == StartWait::HeadOid,
        StartEvent::TrackedClean(_) => w == StartWait::TrackedClean,
        StartEvent::Refs(_) => w == StartWait::Refs,
        StartEvent::Resolved(_) => w == StartWait::Resolved,
        StartEvent::MergeBase(_) => w == StartWait::MergeBase,
        StartEvent::Ancestor(_) => w == StartWait::Ancestor,
        StartEvent::Merged(_) => w == StartWait::Merged,
        StartEvent::Unmerged(_) => w == StartWait::Unmerged,
        StartEvent::Aborted(_) => w == StartWait::Aborted,
    }
}

/// One step of a merge start.
pub open spec fn start_next(s: StartFlow, ev: StartEvent, r: (StartFlow, StartAsk)) -> bool {
    match ev {
        StartEvent::HeadBranch(Err(e)) => start_fails_as(r, e),
        StartEvent::HeadBranch(Ok(o)) => if !o.success {
            start_fails(r, bad("Merges start from a branch HEAD; detached or unborn HEAD cannot merge"@))
        } else {
            keeps(s, r.0) && r.0.wait == StartWait::HeadOid && r.0.current@ == trim(o.stdout@)
                && r.1 is ReadHeadOid
        },
        StartEvent::HeadOid(Err(e)) => start_fails_as(r, e),
        StartEvent::HeadOid(Ok(o)) => if !o.success {
            start_fails(r, bad("Cannot read HEAD"@))
        } else if trim(o.stdout@) != s.confirmed_oid@ {
            start_fails(
                r,
                (
                    ErrorCode::STALE_STATE,
                    "The repository changed under you; refresh and retry"@,
                    RecoveryAction::Refresh,
                    false,
                ),
            )
        } else {
            keeps(s, r.0) && r.0.current == s.current && r.0.wait == StartWait::TrackedClean
                && r.0.head@ == trim(o.stdout@) && r.1 is ReadTrackedClean
        },
        StartEvent::TrackedClean(Err(e)) => start_fails_as(r, e),
        StartEvent::TrackedClean(Ok(clean)) => if !clean {
            start_fails(
                r,
                (
                    ErrorCode::DIRTY_WORKTREE,
                    "Merges start from a clean worktree; stash or commit first"@,
                    RecoveryAction::InspectState,
                    false,
                ),
            )
        } else if s.source_ref_id@.len() == 0 || utf8_len(s.source_ref_id@) > 512 {
            start_fails(r, bad("Unknown merge source"@))
        } else {
            keeps(s, r.0) && r.0.current == s.current && r.0.head == s.head && r.0.wait
                == StartWait::Refs && r.1 is ReadRefs
        },
        StartEvent::Refs(Err(e)) => start_fails_as(r, e),
        StartEvent::Refs(Ok(o)) => if !o.success {
            start_fails(
                r,
                (
                    ErrorCode::GIT_ERROR,
                    "Git could not finish the merge operation"@,
                    RecoveryAction::Refresh,
                    true,
                ),
            )
        } else {
            match merge_source(o.stdout@, s.source_ref_id@) {
                None => start_fails(r, bad("Merge source must be a current branch, tag or commit"@)),
                Some(p) => keeps(s, r.0) && r.0.current == s.current && r.0.head == s.head
                    && r.0.wait == StartWait::Resolved && r.0.source_label@ == p.1 && (
                r.1 matches StartAsk::Resolve(rev) && rev@ == p.0 + "^{commit}"@),
            }
        },
        StartEvent::Resolved(Err(e)) => start_fails_as(r, e),
        StartEvent::Resolved(Ok(o)) => if !o.success {
            start_fails(r, bad("Merge source does not resolve to a commit"@))
        } else if trim(o.stdout@) == s.head@ {
            start_done(r) && r.1 == StartAsk::Done(StartOutcome::UpToDate)
        } else {
            keeps(s, r.0) && r.0.current == s.current && r.0.head == s.head && r.0.source_label
                == s.source_label && r.0.wait == StartWait::MergeBase && r.0.source_oid@ == trim(
                o.stdout@,
            ) && (r.1 matches StartAsk::MergeBase(x) && x@ == trim(o.stdout@))
        },
        StartEvent::MergeBase(Err(e)) => start_fails_as(r, e),
        StartEvent::MergeBase(Ok(related)) => if !related {
            start_fails(r, bad("Unrelated histories are never merged automatically"@))
        } else {
            keeps(s, r.0) && r.0.current == s.current && r.0.head == s.head && r.0.source_label
                == s.source_label && r.0.source_oid == s.source_oid && r.0.wait
                == StartWait::Ancestor && (r.1 matches StartAsk::IsAncestor(x) && x@
                == s.source_oid@)
        },
        StartEvent::Ancestor(Err(e)) => start_fails_as(r, e),
        StartEvent::Ancestor(Ok(contained)) => if contained {
            start_done(r) && r.1 == StartAsk::Done(StartOutcome::UpToDate)
        } else {
            r.0.wait == StartWait::Merged && (r.1 matches StartAsk::Merge { record, oid } && oid@
                == s.source_oid@ && record.pre_head@ == s.head@ && record.source_oid@
                == s.source_oid@ && record.source_label@ == s.source_label@
                && record.current_label@ == s.current@)
        },
        StartEvent::Merged(Err(e)) => start_fails_as(r, e),
        StartEvent::Merged(Ok(ok)) => if ok {
            start_done(r) && r.1 == StartAsk::Done(StartOutcome::Started { conflicted: false })
        } else {
            r.0.wait == StartWait::Unmerged && r.1 is ReadUnmerged
        },
        StartEvent::Unmerged(Err(f)) => start_fails(r, commit_failure_error(f)),
        StartEvent::Unmerged(Ok(u)) => if u {
            start_done(r) && r.1 == StartAsk::Done(StartOutcome::Started { conflicted: true })
        } else {
            r.0.wait == StartWait::Aborted && r.1 is Abort
        },
        StartEvent::Aborted(Err(e)) => start_fails_as(r, e),
        StartEvent::Aborted(Ok(a)) => {
            let cleaned = a.0 && !a.1;
            start_done(r) && (r.1 matches StartAsk::Done(StartOutcome::Failed { error, clear_record })
                && clear_record == cleaned && (cleaned ==> is_error(
                error,
                ErrorCode::GIT_ERROR,
                "Git could not finish the merge operation"@,
                RecoveryAction::Refresh,
                true,
            )) && (!cleaned ==> is_error(
                error,
                ErrorCode::GIT_ERROR,
                "The merge failed and automatic cleanup did not finish; inspect the repository before retrying"@,
                RecoveryAction::InspectState,
                true,
            )))
        },
    }
}

/// What a merge-start step does to the registry. An up-to-date source
/// moves the version on. The merge is recorded (state `Merging`) before Git
/// runs it. When Git stopped for review, with or without conflicts, the
/// version moves on and the repository's pinned history walks are dropped.
/// After a rollback the version moves on too; when the rollback finished,
/// the record is forgotten and the state is `Normal` again. Every other
/// step leaves the registry as it was.
pub open spec fn start_effects(
    reg0: RepoRegistry,
    reg1: RepoRegistry,
    s: StartFlow,
    ev: StartEvent,
    r: (StartFlow, StartAsk),
) -> bool {
    let repo = s.repo_id@;
    &&& r.0.wait != StartWait::Nothing ==> r.0.repo_id@ == repo
    &&& match r.1 {
        StartAsk::Done(StartOutcome::UpToDate) => changed(reg0, reg1, repo, None, None, 1, false),
        StartAsk::Merge { record, .. } => changed(
            reg0,
            reg1,
            repo,
            Some(Some(record)),
            Some(RepoState::Merging),
            0,
            false,
        ),
        StartAsk::Done(StartOutcome::Started { .. }) => changed(reg0, reg1, repo, None, None, 1, true),
        StartAsk::Done(StartOutcome::Failed { clear_record: true, .. }) => changed(
            reg0,
            reg1,
            repo,
            Some(None),
            Some(RepoState::Normal),
            1,
            false,
        ),
        StartAsk::Done(StartOutcome::Failed { clear_record: false, .. }) => if ev matches StartEvent::Aborted(Ok(_)) {
            changed(reg0, reg1, repo, None, None, 1, false)
        } else {
            reg1 == reg0
        },
        _ => reg1 == reg0,
    }
}

fn flow_of(s: &StartFlow, wait: StartWait) -> (t: StartFlow)
    ensures
        t.wait == wait,
        t.repo_id@ == s.repo_id@,
        t.source_ref_id == s.source_ref_id,
        t.confirmed_oid == s.confirmed_oid,
        t.current == s.current,
        t.head == s.head,
        t.source_oid == s.source_oid,
        t.source_label == s.source_label,
{
    StartFlow {
        wait,
        repo_id: string_lit(s.repo_id.as_str()),
        source_ref_id: s.source_ref_id.clone(),
        confirmed_oid: s.confirmed_oid.clone(),
        current: s.current.clone(),
        head: s.head.clone(),
        source_oid: s.source_oid.clone(),
        source_label: s.source_label.clone(),
    }
}

fn ended(o: StartOutcome) -> (r: (StartFlow, StartAsk))
    ensures
        start_done(r),
        r.1 == StartAsk::Done(o),
{
    (
        StartFlow {
            wait: StartWait::Nothing,
            repo_id: String::new(),
            source_ref_id: String::new(),
            confirmed_oid: String::new(),
            current: String::new(),
            head: String::new(),
            source_oid: String::new(),
            source_label: String::new(),
        },
        StartAsk::Done(o),
    )
}

fn fail(e: AppError) -> (r: (StartFlow, StartAsk))
    ensures
        start_fails_as(r, e),
{
    ended(StartOutcome::Failed { error: e, clear_record: false })
}

pub fn merge_start_begin(
    session: Option<&SessionInfo>,
    expected_version: u64,
    repo_id: &str,
    merge_live: bool,
    source_ref_id: &str,
    confirmed_oid: &str,
) -> (r: (StartFlow, StartAsk))
    ensures
        start_begin(
            match session {
                Some(s) => Some(*s),
                None => None,
            },
            expected_version,
            merge_live,
            source_ref_id@,
            confirmed_oid@,
            r,
        ),
        r.0.wait != StartWait::Nothing ==> r.0.repo_id@ == repo_id@,
{
    if let Err(e) = check_write_context(session, expected_version, "start merges") {
        return fail(e);
    }
    if let Err(e) = check_no_merge_in_progress(merge_live) {
        return fail(e);
    }
    (
        StartFlow {
            wait: StartWait::HeadBranch,
            repo_id: string_lit(repo_id),
            source_ref_id: string_lit(source_ref_id),
            confirmed_oid: string_lit(confirmed_oid),
            current: String::new(),
            head: String::new(),
            source_oid: String::new(),
            source_label: String::new(),
        },
        StartAsk::ReadHeadBranch,
    )
}

pub fn merge_start_event_fits(s: &StartFlow, ev: &StartEvent) -> (r: bool)
    ensures
        r == start_fits(s.wait, *ev),
{
    match ev {
        StartEvent::HeadBranch(_) => s.wait == StartWait::HeadBranch,
        StartEvent::HeadOid(_) => s.wait == StartWait::HeadOid,
        StartEvent::TrackedClean(_) => s.wait == StartWait::TrackedClean,
        StartEvent::Refs(_) => s.wait == StartWait::Refs,
        StartEvent::Resolved(_) => s.wait == StartWait::Resolved,
        StartEvent::MergeBase(_) => s.wait == StartWait::MergeBase,
        StartEvent::Ancestor(_) => s.wait == StartWait::Ancestor,
        StartEvent::Merged(_) => s.wait == StartWait::Merged,
        StartEvent::Unmerged(_) => s.wait == StartWait::Unmerged,
        StartEvent::Aborted(_) => s.wait == StartWait::Aborted,
    }
}

#[verifier::rlimit(60)]
pub fn merge_start_step(reg: &mut RepoRegistry, s: StartFlow, ev: StartEvent) -> (r: (StartFlow, StartAsk))
    requires
        old(reg).wf(),
        start_fits(s.wait, ev),
    ensures
        final(reg).wf(),
        start_next(s, ev, r),
        start_effects(*old(reg), *final(reg), s, ev, r),
{
    match ev {
        StartEvent::HeadBranch(Err(e)) => fail(e),
        StartEvent::HeadBranch(Ok(o)) => match merge_head_branch(o.success, o.stdout.as_str()) {
            Err(e) => fail(e),
            Ok(b) => {
                let mut t = flow_of(&s, StartWait::HeadOid);
                t.current = string_of(b.as_slice());
                (t, StartAsk::ReadHeadOid)
            },
        },
        StartEvent::HeadOid(Err(e)) => fail(e),
        StartEvent::HeadOid(Ok(o)) => match merge_head_oid(o.success, o.stdout.as_str()) {
            Err(e) => fail(e),
            Ok(h) => {
                let head = string_of(h.as_slice());
                match check_confirmed_head(head.as_str(), s.confirmed_oid.as_str()) {
                    Err(e) => fail(e),
                    Ok(()) => {
                        let mut t = flow_of(&s, StartWait::TrackedClean);
                        t.head = head;
                        (t, StartAsk::ReadTrackedClean)
                    },
                }
            },
        },
        StartEvent::TrackedClean(Err(e)) => fail(e),
        StartEvent::TrackedClean(Ok(clean)) => {
            if let Err(e) = check_tracked_clean(clean) {
                return fail(e);
            }
            if let Err(e) = check_source_id(s.source_ref_id.as_str()) {
                return fail(e);
            }
            (flow_of(&s, StartWait::Refs), StartAsk::ReadRefs)
        },
        StartEvent::Refs(Err(e)) => fail(e),
        StartEvent::Refs(Ok(o)) => {
            if !o.success {
                return fail(merge_failed());
            }
            match pick_merge_source(o.stdout.as_str(), s.source_ref_id.as_str()) {
                Err(e) => fail(e),
                Ok((candidate, label)) => {
                    let mut t = flow_of(&s, StartWait::Resolved);
                    t.source_label = label;
                    (t, StartAsk::Resolve(source_commit_rev(candidate.as_str())))
                },
            }
        },
        StartEvent::Resolved(Err(e)) => fail(e),
        StartEvent::Resolved(Ok(o)) => match source_resolved(o.success, o.stdout.as_str()) {
            Err(e) => fail(e),
            Ok(v) => {
                let oid = string_of(v.as_slice());
                if str_eq(oid.as_str(), s.head.as_str()) {
                    reg.settle(s.repo_id.as_str(), None, None, 1, false);
                    return ended(StartOutcome::UpToDate);
                }
                let mut t = flow_of(&s, StartWait::MergeBase);
                t.source_oid = oid.clone();
                (t, StartAsk::MergeBase(oid))
            },
        },
        StartEvent::MergeBase(Err(e)) => fail(e),
        StartEvent::MergeBase(Ok(related)) => match check_related_histories(related) {
            Err(e) => fail(e),
            Ok(()) => {
                let oid = s.source_oid.clone();
                (flow_of(&s, StartWait::Ancestor), StartAsk::IsAncestor(oid))
            },
        },
        StartEvent::Ancestor(Err(e)) => fail(e),
        StartEvent::Ancestor(Ok(contained)) => {
            if contained {
                reg.settle(s.repo_id.as_str(), None, None, 1, false);
                return ended(StartOutcome::UpToDate);
            }
            let record = MergeRecord {
                pre_head: s.head.clone(),
                source_oid: s.source_oid.clone(),
                source_label: s.source_label.clone(),
                current_label: s.current.clone(),
            };
            let kept = MergeRecord {
                pre_head: s.head.clone(),
                source_oid: s.source_oid.clone(),
                source_label: s.source_label.clone(),
                current_label: s.current.clone(),
            };
            reg.settle(s.repo_id.as_str(), Some(Some(kept)), Some(RepoState::Merging), 0, false);
            let oid = s.source_oid.clone();
            (flow_of(&s, StartWait::Merged), StartAsk::Merge { record, oid })
        },
        StartEvent::Merged(Err(e)) => fail(e),
        StartEvent::Merged(Ok(ok)) => {
            if ok {
                reg.settle(s.repo_id.as_str(), None, None, 1, true);
                return ended(StartOutcome::Started { conflicted: false });
            }
            (flow_of(&s, StartWait::Unmerged), StartAsk::ReadUnmerged)
        },
        StartEvent::Unmerged(Err(f)) => fail(commit_error(&f)),
        StartEvent::Unmerged(Ok(u)) => {
            if u {
                reg.settle(s.repo_id.as_str(), None, None, 1, true);
                return ended(StartOutcome::Started { conflicted: true });
            }
            (flow_of(&s, StartWait::Aborted), StartAsk::Abort)
        },
        StartEvent::Aborted(Err(e)) => fail(e),
        StartEvent::Aborted(Ok((abort_ok, live))) => {
            let (error, clear_record) = merge_start_abort_outcome(abort_ok, live);
            if clear_record {
                reg.settle(s.repo_id.as_str(), Some(None), Some(RepoState::Normal), 1, false);
            } else {
                reg.settle(s.repo_id.as_str(), None, None, 1, false);
            }
            ended(StartOutcome::Failed { error, clear_record })
        },
    }
}

// ---------------------------------------------------------------------------
// Completing a merge
// ---------------------------------------------------------------------------

/// The answer a merge completion waits for.
#[derive(Debug, Clone, Copy, PartialEq, Eq, Structural)]
pub enum CompleteWait {
    HeadOid,
    Unmerged,
    Identity,
    Commit,
    Parents,
    Nothing,
}

pub struct CompleteFlow {
    pub wait: CompleteWait,
    pub repo_id: String,
    pub confirmed_oid: String,
    pub message: String,
    pub oid: String,
}

pub enum CompleteAsk {
    ReadHeadOid,
    ReadUnmerged,
    ReadIdentity,
    /// Commit the index with this message (on stdin).
    CommitStaged(String),
    /// `git rev-list --parents -n 1 HEAD`.
    ReadParents,
    /// `Ok(oid)`: the merge commit; the merge record is forgotten and the
    /// state is normal again.
    Done(Result<String, AppError>),
}

pub enum CompleteEvent {
    HeadOid(Result<GitOut, AppError>),
    Unmerged(Result<bool, CommitFailure>),
    Identity(Result<(Option<String>, Option<String>), CommitFailure>),
    Committed(Result<String, CommitFailure>),
    Parents(Result<GitOut, AppError>),
}

pub open spec fn complete_done(r: (CompleteFlow, CompleteAsk)) -> bool {
    r.0.wait == CompleteWait::Nothing && r.1 is Done
}

pub open spec fn complete_fails(r: (CompleteFlow, CompleteAsk), x: (ErrorCode, Seq<char>, RecoveryAction, bool)) -> bool {
    complete_done(r) && (r.1 matches CompleteAsk::Done(Err(e)) && is_error(e, x.0, x.1, x.2, x.3))
}

/// Starting: the message and review flag, then the session, then a live
/// merge; then HEAD is read.
pub open spec fn complete_begin(
    session: Option<SessionInfo>,
    expected_version: u64,
    merge_live: bool,
    subject: Seq<char>,
    body: Seq<char>,
    reviewed: bool,
    confirmed: Seq<char>,
    r: (CompleteFlow, CompleteAsk),
) -> bool {
    match merge_message_error(subject, body, reviewed) {
        Some(m) => complete_fails(r, bad(m)),
        None => match write_context_error(session, expected_version, "complete merges"@) {
            Some(x) => complete_fails(r, x),
            None => if !merge_live {
                complete_fails(r, bad("No merge is in progress"@))
            } else {
                r.0.wait == CompleteWait::HeadOid && r.1 is ReadHeadOid && r.0.confirmed_oid@
                    == confirmed && r.0.message@ == merge_message(subject, body)
            },
        },
    }
}

pub open spec fn complete_fits(w: CompleteWait, ev: CompleteEvent) -> bool {
    match ev {
        CompleteEvent::HeadOid(_) => w == CompleteWait::HeadOid,
        CompleteEvent::Unmerged(_) => w == CompleteWait::Unmerged,
        CompleteEvent::Identity(_) => w == CompleteWait::Identity,
        CompleteEvent::Committed(_) => w == CompleteWait::Commit,
        CompleteEvent::Parents(_) => w == CompleteWait::Parents,
    }
}

/// One step of a merge completion: HEAD must still be the confirmed
/// commit, no conflict may remain, an identity must exist; after the
/// commit, HEAD must have exactly two parents.
pub open spec fn complete_next(s: CompleteFlow, ev: CompleteEvent, r: (CompleteFlow, CompleteAsk)) -> bool {
    match ev {
        CompleteEvent::HeadOid(Err(e)) => complete_done(r) && r.1 == CompleteAsk::Done(Err(e)),
        CompleteEvent::HeadOid(Ok(o)) => if !o.success {
            complete_fails(r, bad("Cannot read HEAD"@))
        } else if trim(o.stdout@) != s.confirmed_oid@ {
            complete_fails(
                r,
                (
                    ErrorCode::STALE_STATE,
                    "The repository changed under you; refresh and retry"@,
                    RecoveryAction::Refresh,
                    false,
                ),
            )
        } else {
            r.0.wait == CompleteWait::Unmerged && r.0.message == s.message && r.1 is ReadUnmerged
        },
        CompleteEvent::Unmerged(Err(f)) => complete_fails(r, commit_failure_error(f)),
        CompleteEvent::Unmerged(Ok(u)) => if u {
            complete_fails(
                r,
                (
                    ErrorCode::CONFLICTS_PRESENT,
                    "Unmerged files remain; resolve every conflict before completing"@,
                    RecoveryAction::ResolveConflict,
                    false,
                ),
            )
        } else {
            r.0.wait == CompleteWait::Identity && r.0.message == s.message && r.1 is ReadIdentity
        },
        CompleteEvent::Identity(Err(f)) => complete_fails(r, commit_failure_error(f)),
        CompleteEvent::Identity(Ok(id)) => if opt_nonempty(id.0) && opt_nonempty(id.1) {
            r.0.wait == CompleteWait::Commit && (r.1 matches CompleteAsk::CommitStaged(m) && m@
                == s.message@)
        } else {
            complete_fails(
                r,
                (
                    ErrorCode::IDENTITY_MISSING,
                    "Git identity is missing: set user.name and user.email in your Git config, then retry"@,
                    RecoveryAction::ConfigureGit,
                    false,
                ),
            )
        },
        CompleteEvent::Committed(Err(f)) => complete_fails(r, commit_failure_error(f)),
        CompleteEvent::Committed(Ok(oid)) => r.0.wait == CompleteWait::Parents && r.0.oid == oid
            && r.1 is ReadParents,
        CompleteEvent::Parents(Err(e)) => complete_done(r) && r.1 == CompleteAsk::Done(Err(e)),
        CompleteEvent::Parents(Ok(o)) => if o.success && word_count(o.stdout@) == 3 {
            complete_done(r) && r.1 == CompleteAsk::Done(Ok(s.oid))
        } else {
            complete_fails(
                r,
                (
                    ErrorCode::GIT_ERROR,
                    "Git could not finish the merge operation"@,
                    RecoveryAction::Refresh,
                    true,
                ),
            )
        },
    }
}

/// What a completion step does to the registry. A finished merge commit
/// forgets the merge record, returns the state to `Normal`, moves the
/// version on and drops the repository's pinned history walks. A commit
/// that is not a two-parent merge still moves the version on. Every other
/// step leaves the registry as it was.
pub open spec fn complete_effects(
    reg0: RepoRegistry,
    reg1: RepoRegistry,
    s: CompleteFlow,
    ev: CompleteEvent,
    r: (CompleteFlow, CompleteAsk),
) -> bool {
    let repo = s.repo_id@;
    &&& r.0.wait != CompleteWait::Nothing ==> r.0.repo_id@ == repo
    &&& match r.1 {
        CompleteAsk::Done(Ok(_)) => changed(reg0, reg1, repo, Some(None), Some(RepoState::Normal), 1, true),
        CompleteAsk::Done(Err(_)) => if ev matches CompleteEvent::Parents(Ok(_)) {
            changed(reg0, reg1, repo, None, None, 1, false)
        } else {
            reg1 == reg0
        },
        _ => reg1 == reg0,
    }
}

fn complete_end(v: Result<String, AppError>) -> (r: (CompleteFlow, CompleteAsk))
    ensures
        complete_done(r),
        r.1 == CompleteAsk::Done(v),
{
    (
        CompleteFlow {
            wait: CompleteWait::Nothing,
            repo_id: String::new(),
            confirmed_oid: String::new(),
            message: String::new(),
            oid: String::new(),
        },
        CompleteAsk::Done(v),
    )
}

pub fn merge_complete_begin(
    session: Option<&SessionInfo>,
    expected_version: u64,
    repo_id: &str,
    merge_live: bool,
    subject: &str,
    body: &str,
    staged_reviewed: bool,
    confirmed_head_oid: &str,
) -> (r: (CompleteFlow, CompleteAsk))
    ensures
        complete_begin(
            match session {
                Some(s) => Some(*s),
                None => None,
            },
            expected_version,
            merge_live,
            subject@,
            body@,
            staged_reviewed,
            confirmed_head_oid@,
            r,
        ),
        r.0.wait != CompleteWait::Nothing ==> r.0.repo_id@ == repo_id@,
{
    if let Err(e) = check_merge_message(subject, body, staged_reviewed) {
        return complete_end(Err(e));
    }
    if let Err(e) = check_write_context(session, expected_version, "complete merges") {
        return complete_end(Err(e));
    }
    if let Err(e) = check_merge_live(merge_live) {
        return complete_end(Err(e));
    }
    (
        CompleteFlow {
            wait: CompleteWait::HeadOid,
            repo_id: string_lit(repo_id),
            confirmed_oid: string_lit(confirmed_head_oid),
            message: merge_message_text(subject, body),
            oid: String::new(),
        },
        CompleteAsk::ReadHeadOid,
    )
}

pub fn merge_complete_event_fits(s: &CompleteFlow, ev: &CompleteEvent) -> (r: bool)
    ensures
        r == complete_fits(s.wait, *ev),
{
    match ev {
        CompleteEvent::HeadOid(_) => s.wait == CompleteWait::HeadOid,
        CompleteEvent::Unmerged(_) => s.wait == CompleteWait::Unmerged,
        CompleteEvent::Identity(_) => s.wait == CompleteWait::Identity,
        CompleteEvent::Committed(_) => s.wait == CompleteWait::Commit,
        CompleteEvent::Parents(_) => s.wait == CompleteWait::Parents,
    }
}

pub fn merge_complete_step(reg: &mut RepoRegistry, s: CompleteFlow, ev: CompleteEvent) -> (r: (
    CompleteFlow,
    CompleteAsk,
))
    requires
        old(reg).wf(),
        complete_fits(s.wait, ev),
    ensures
        final(reg).wf(),
        complete_next(s, ev, r),
        complete_effects(*old(reg), *final(reg), s, ev, r),
{
    let next = |w: CompleteWait, s: &CompleteFlow| -> (t: CompleteFlow)
        ensures
            t.wait == w,
            t.repo_id@ == s.repo_id@,
            t.confirmed_oid == s.confirmed_oid,
            t.message == s.message,
            t.oid == s.oid,
        {
            CompleteFlow {
                wait: w,
                repo_id: string_lit(s.repo_id.as_str()),
                confirmed_oid: s.confirmed_oid.clone(),
                message: s.message.clone(),
                oid: s.oid.clone(),
            }
        };
    match ev {
        CompleteEvent::HeadOid(Err(e)) => complete_end(Err(e)),
        CompleteEvent::HeadOid(Ok(o)) => match merge_head_oid(o.success, o.stdout.as_str()) {
            Err(e) => complete_end(Err(e)),
            Ok(h) => {
                let head = string_of(h.as_slice());
                match check_confirmed_head(head.as_str(), s.confirmed_oid.as_str()) {
                    Err(e) => complete_end(Err(e)),
                    Ok(()) => (next(CompleteWait::Unmerged, &s), CompleteAsk::ReadUnmerged),
                }
            },
        },
        CompleteEvent::Unmerged(Err(f)) => complete_end(Err(commit_error(&f))),
        CompleteEvent::Unmerged(Ok(u)) => match check_no_unmerged(u) {
            Err(e) => complete_end(Err(e)),
            Ok(()) => (next(CompleteWait::Identity, &s), CompleteAsk::ReadIdentity),
        },
        CompleteEvent::Identity(Err(f)) => complete_end(Err(commit_error(&f))),
        CompleteEvent::Identity(Ok((name, email))) => match check_identity(&name, &email) {
            Err(e) => complete_end(Err(e)),
            Ok(()) => {
                let m = s.message.clone();
                (next(CompleteWait::Commit, &s), CompleteAsk::CommitStaged(m))
            },
        },
        CompleteEvent::Committed(Err(f)) => complete_end(Err(commit_error(&f))),
        CompleteEvent::Committed(Ok(oid)) => {
            let mut t = next(CompleteWait::Parents, &s);
            t.oid = oid;
            (t, CompleteAsk::ReadParents)
        },
        CompleteEvent::Parents(Err(e)) => complete_end(Err(e)),
        CompleteEvent::Parents(Ok(o)) => {
            if has_two_parents(o.success, o.stdout.as_str()) {
                reg.settle(s.repo_id.as_str(), Some(None), Some(RepoState::Normal), 1, true);
                complete_end(Ok(s.oid))
            } else {
                reg.settle(s.repo_id.as_str(), None, None, 1, false);
                complete_end(Err(merge_failed()))
            }
        },
    }
}

} // verus!
