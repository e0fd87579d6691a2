//! `commit_create` as a sequence of Git reads and one write. The flow
//! checks the session and the message first, then asks in order whether
//! conflicts remain, whether anything is staged, and who the author is;
//! only then does it ask for the commit. The shell performs each ask and
//! hands back what Git said; on success it bumps the session version.

use vstd::prelude::*;
use crate::commit::{
    check_commit_message, check_index_nonempty, check_no_conflicts, commit_error,
    commit_failure_error, commit_message_error, commit_message_text, CommitFailure,
};
use crate::error::{is_error, AppError, ErrorCode, RecoveryAction};
use crate::gate::{check_write_context, write_context_error, SessionInfo};
use crate::merge::{check_identity, merge_message, opt_nonempty};
use crate::registry::{changed, RepoRegistry};
use crate::text::string_lit;

verus! {

/// The Git answer a commit flow waits for.
#[derive(Debug, Clone, Copy, PartialEq, Eq, Structural)]
pub enum CommitWait {
    Unmerged,
    IndexEmpty,
    Identity,
    Commit,
    Nothing,
}

/// A commit in progress: what it waits for and the message it will use.
pub struct CommitFlow {
    pub wait: CommitWait,
    pub repo_id: String,
    pub message: String,
}

/// What the shell does next.
pub enum CommitAsk {
    /// Report whether the index holds unmerged entries.
    ReadUnmerged,
    /// Report whether nothing is staged.
    ReadIndexEmpty,
    /// Report `user.name` and `user.email`.
    ReadIdentity,
    /// Commit exactly the index with this message (passed on stdin).
    CommitStaged(String),
    /// The flow ended: the new commit id, or the error to report.
    Done(Result<String, AppError>),
}

/// What Git answered.
pub enum CommitEvent {
    Unmerged(Result<bool, CommitFailure>),
    IndexEmpty(Result<bool, CommitFailure>),
    Identity(Result<(Option<String>, Option<String>), CommitFailure>),
    Committed(Result<String, CommitFailure>),
}

pub open spec fn finished(r: (CommitFlow, CommitAsk)) -> bool {
    r.0.wait == CommitWait::Nothing && r.1 is Done
}

/// The flow ends with this error.
pub open spec fn ends_with(r: (CommitFlow, CommitAsk), x: (ErrorCode, Seq<char>, RecoveryAction, bool)) -> bool {
    finished(r) && (r.1 matches CommitAsk::Done(Err(e)) && is_error(e, x.0, x.1, x.2, x.3))
}

/// Starting: the session must be open, trusted and current, and the
/// message valid; then the first read is whether conflicts remain.
pub open spec fn commit_start(
    session: Option<SessionInfo>,
    expected_version: u64,
    subject: Seq<char>,
    body: Seq<char>,
    r: (CommitFlow, CommitAsk),
) -> bool {
    match write_context_error(session, expected_version, "commit"@) {
        Some(x) => ends_with(r, x),
        None => match commit_message_error(subject, body) {
            Some(m) => ends_with(
                r,
                (ErrorCode::INVALID_ARGUMENT, m, RecoveryAction::InspectState, false),
            ),
            None => r.0.wait == CommitWait::Unmerged && r.0.message@ == merge_message(subject, body)
                && r.1 is ReadUnmerged,
        },
    }
}

/// The event answers what the flow waits for.
pub open spec fn commit_fits(s: CommitWait, ev: CommitEvent) -> bool {
    match ev {
        CommitEvent::Unmerged(_) => s == CommitWait::Unmerged,
        CommitEvent::IndexEmpty(_) => s == CommitWait::IndexEmpty,
        CommitEvent::Identity(_) => s == CommitWait::Identity,
        CommitEvent::Committed(_) => s == CommitWait::Commit,
    }
}

/// One step: a failed read ends with the commit error of that failure;
/// conflicts, an empty index or a missing identity end with their errors;
/// otherwise the next read, then the commit with the checked message.
pub open spec fn commit_next(s: CommitFlow, ev: CommitEvent, r: (CommitFlow, CommitAsk)) -> bool {
    match ev {
        CommitEvent::Unmerged(Err(f)) => ends_with(r, commit_failure_error(f)),
        CommitEvent::Unmerged(Ok(true)) => ends_with(
            r,
            (
                ErrorCode::CONFLICTS_PRESENT,
                "Unresolved conflicts block the commit; resolve them first"@,
                RecoveryAction::ResolveConflict,
                false,
            ),
        ),
        CommitEvent::Unmerged(Ok(false)) => r.0.wait == CommitWait::IndexEmpty && r.0.message
            == s.message && r.1 is ReadIndexEmpty,
        CommitEvent::IndexEmpty(Err(f)) => ends_with(r, commit_failure_error(f)),
        CommitEvent::IndexEmpty(Ok(true)) => ends_with(
            r,
            (
                ErrorCode::EMPTY_INDEX,
                "Nothing is staged; stage files before committing"@,
                RecoveryAction::InspectState,
                false,
            ),
        ),
        CommitEvent::IndexEmpty(Ok(false)) => r.0.wait == CommitWait::Identity && r.0.message
            == s.message && r.1 is ReadIdentity,
        CommitEvent::Identity(Err(f)) => ends_with(r, commit_failure_error(f)),
        CommitEvent::Identity(Ok(id)) => if opt_nonempty(id.0) && opt_nonempty(id.1) {
            r.0.wait == CommitWait::Commit && r.0.message == s.message && (r.1 matches CommitAsk::CommitStaged(m)
                && m@ == s.message@)
        } else {
            ends_with(
                r,
                (
                    ErrorCode::IDENTITY_MISSING,
                    "Git identity is missing: set user.name and user.email in your Git config, then retry"@,
                    RecoveryAction::ConfigureGit,
                    false,
                ),
            )
        },
        CommitEvent::Committed(Err(f)) => ends_with(r, commit_failure_error(f)),
        CommitEvent::Committed(Ok(oid)) => finished(r) && r.1 == CommitAsk::Done(Ok(oid)),
    }
}

fn done(e: AppError) -> (r: (CommitFlow, CommitAsk))
    ensures
        finished(r),
        r.1 == CommitAsk::Done(Err(e)),
{
    (CommitFlow { wait: CommitWait::Nothing, repo_id: String::new(), message: String::new() }, CommitAsk::Done(Err(e)))
}

pub fn commit_begin(
    session: Option<&SessionInfo>,
    expected_version: u64,
    repo_id: &str,
    subject: &str,
    body: &str,
) -> (r: (CommitFlow, CommitAsk))
    ensures
        commit_start(
            match session {
                Some(s) => Some(*s),
                None => None,
            },
            expected_version,
            subject@,
            body@,
            r,
        ),
        r.0.wait != CommitWait::Nothing ==> r.0.repo_id@ == repo_id@,
{
    if let Err(e) = check_write_context(session, expected_version, "commit") {
        return done(e);
    }
    if let Err(e) = check_commit_message(subject, body) {
        return done(e);
    }
    let message = commit_message_text(subject, body);
    (CommitFlow { wait: CommitWait::Unmerged, repo_id: string_lit(repo_id), message }, CommitAsk::ReadUnmerged)
}

/// Whether `ev` answers what `s` waits for.
pub fn commit_event_fits(s: &CommitFlow, ev: &CommitEvent) -> (r: bool)
    ensures
        r == commit_fits(s.wait, *ev),
{
    match ev {
        CommitEvent::Unmerged(_) => s.wait == CommitWait::Unmerged,
        CommitEvent::IndexEmpty(_) => s.wait == CommitWait::IndexEmpty,
        CommitEvent::Identity(_) => s.wait == CommitWait::Identity,
        CommitEvent::Committed(_) => s.wait == CommitWait::Commit,
    }
}

/// One step of a commit. A commit that was made moves the version of the
/// repository on; every other step leaves the registry as it was.
pub fn commit_step(reg: &mut RepoRegistry, s: CommitFlow, ev: CommitEvent) -> (r: (CommitFlow, CommitAsk))
    requires
        old(reg).wf(),
        commit_fits(s.wait, ev),
    ensures
        final(reg).wf(),
        commit_next(s, ev, r),
        r.0.wait != CommitWait::Nothing ==> r.0.repo_id@ == s.repo_id@,
        if r.1 matches CommitAsk::Done(Ok(_)) {
            changed(*old(reg), *final(reg), s.repo_id@, None, None, 1, false)
        } else {
            *final(reg) == *old(reg)
        },
{
    match ev {
        CommitEvent::Unmerged(Err(f)) => done(commit_error(&f)),
        CommitEvent::Unmerged(Ok(u)) => match check_no_conflicts(u) {
            Err(e) => done(e),
            Ok(()) => (CommitFlow { wait: CommitWait::IndexEmpty, repo_id: s.repo_id, message: s.message }, CommitAsk::ReadIndexEmpty),
        },
        CommitEvent::IndexEmpty(Err(f)) => done(commit_error(&f)),
        CommitEvent::IndexEmpty(Ok(empty)) => match check_index_nonempty(empty) {
            Err(e) => done(e),
            Ok(()) => (CommitFlow { wait: CommitWait::Identity, repo_id: s.repo_id, message: s.message }, CommitAsk::ReadIdentity),
        },
        CommitEvent::Identity(Err(f)) => done(commit_error(&f)),
        CommitEvent::Identity(Ok((name, email))) => match check_identity(&name, &email) {
            Err(e) => done(e),
            Ok(()) => {
                let m = s.message.clone();
                (CommitFlow { wait: CommitWait::Commit, repo_id: s.repo_id, message: s.message }, CommitAsk::CommitStaged(m))
            },
        },
        CommitEvent::Committed(Err(f)) => done(commit_error(&f)),
        CommitEvent::Committed(Ok(oid)) => {
            reg.settle(s.repo_id.as_str(), None, None, 1, false);
            (
            CommitFlow { wait: CommitWait::Nothing, repo_id: String::new(), message: String::new() },
            CommitAsk::Done(Ok(oid)),
        )
        },
    }
}

} // verus!
