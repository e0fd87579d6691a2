//! `fetch` and `pull` up to the job they start. Each checks the session,
//! trust and version, then asks for what only Git can tell (the remote and
//! its URL; the worktree counts and the upstream), and ends with the job
//! plan: its kind, its argument vector (with the Bitbucket user name where
//! the URL carries one) and the summary the operation log shows. The plan
//! is registered with `remote_job_register` and run as a remote job.

use vstd::prelude::*;
use crate::domain::TrustState;
use crate::error::{bad, bad_request_str, is_error, session_missing, stale_state, trust_required, AppError, ErrorCode, RecoveryAction};
use crate::pr_flow::remote_name_error;
use crate::registry::RepoRegistry;
use crate::remote::{check_remote_name, username_override};
use crate::sync::{check_pull_clean, fetch_plan, pull_plan};
use crate::text::{string_lit, string_views};

verus! {

/// A remote job ready to be registered.
pub struct JobPlan {
    pub kind: String,
    pub argv: Vec<String>,
    pub summary: String,
}

/// The answer a fetch or pull waits for.
#[derive(Debug, Clone, Copy, PartialEq, Eq, Structural)]
pub enum SyncWait {
    DefaultRemote,
    RemoteUrl,
    Counts,
    Upstream,
    Nothing,
}

/// A fetch or pull being prepared.
pub struct SyncFlow {
    pub wait: SyncWait,
    pub remote: String,
}

/// What the shell does next.
pub enum SyncAsk {
    /// Find the remote of the current branch, or `origin`.
    DefaultRemote,
    /// Read the URL of this remote.
    RemoteUrl(String),
    /// Count staged, unstaged and conflicted paths.
    ReadCounts,
    /// The upstream of the current branch: its remote and URL.
    ReadUpstream,
    Done(Result<JobPlan, AppError>),
}

/// What the shell found.
pub enum SyncEvent {
    DefaultRemote(Result<String, AppError>),
    RemoteUrl(Result<String, AppError>),
    Counts(Result<(u64, u64, u64), AppError>),
    /// `None` when the current branch has no upstream.
    Upstream(Result<Option<(String, String)>, AppError>),
}

pub open spec fn sync_fails(r: (SyncFlow, SyncAsk), x: (ErrorCode, Seq<char>, RecoveryAction, bool)) -> bool {
    r.0.wait == SyncWait::Nothing && (r.1 matches SyncAsk::Done(Err(e)) && is_error(e, x.0, x.1, x.2, x.3))
}

pub open spec fn sync_fails_as(r: (SyncFlow, SyncAsk), e: AppError) -> bool {
    r.0.wait == SyncWait::Nothing && r.1 == SyncAsk::Done(Err(e))
}

/// The flow ends with this plan.
pub open spec fn plans(r: (SyncFlow, SyncAsk), kind: Seq<char>, argv: Seq<Seq<char>>, summary: Seq<char>) -> bool {
    r.0.wait == SyncWait::Nothing && (r.1 matches SyncAsk::Done(Ok(p)) && p.kind@ == kind && string_views(
        p.argv@,
    ) == argv && p.summary@ == summary)
}

/// The session is open, trusted and current, or the error that says why
/// not.
pub open spec fn session_error(reg: RepoRegistry, repo_id: Seq<char>, expected_version: u64, action: Seq<char>) -> Option<
    (ErrorCode, Seq<char>, RecoveryAction, bool),
> {
    match reg.session_index(repo_id) {
        None => Some(
            (
                ErrorCode::REPO_UNAVAILABLE,
                "Repository session is no longer open"@,
                RecoveryAction::ChooseRepository,
                false,
            ),
        ),
        Some(i) => if reg.sessions()[i].trust != TrustState::Trusted {
            Some(
                (
                    ErrorCode::TRUST_REQUIRED,
                    "Trust this repository to "@ + action,
                    RecoveryAction::InspectState,
                    false,
                ),
            )
        } else if reg.sessions()[i].version != expected_version {
            Some(
                (
                    ErrorCode::STALE_STATE,
                    "The repository changed under you; refresh and retry"@,
                    RecoveryAction::Refresh,
                    false,
                ),
            )
        } else {
            None
        },
    }
}

pub open spec fn fetch_start(
    reg: RepoRegistry,
    repo_id: Seq<char>,
    expected_version: u64,
    remote: Option<Seq<char>>,
    r: (SyncFlow, SyncAsk),
) -> bool {
    match session_error(reg, repo_id, expected_version, "fetch from remotes"@) {
        Some(x) => sync_fails(r, x),
        None => match remote {
            Some(name) => match remote_name_error(name) {
                Some(m) => sync_fails(r, (ErrorCode::INVALID_ARGUMENT, m, RecoveryAction::InspectState, false)),
                None => r.0.wait == SyncWait::RemoteUrl && r.0.remote@ == name && (r.1 matches SyncAsk::RemoteUrl(
                    n,
                ) && n@ == name),
            },
            None => r.0.wait == SyncWait::DefaultRemote && r.1 is DefaultRemote,
        },
    }
}

pub open spec fn pull_start(reg: RepoRegistry, repo_id: Seq<char>, expected_version: u64, r: (SyncFlow, SyncAsk)) -> bool {
    match session_error(reg, repo_id, expected_version, "pull from remotes"@) {
        Some(x) => sync_fails(r, x),
        None => r.0.wait == SyncWait::Counts && r.1 is ReadCounts,
    }
}

pub open spec fn sync_fits(w: SyncWait, ev: SyncEvent) -> bool {
    match ev {
        SyncEvent::DefaultRemote(_) => w == SyncWait::DefaultRemote,
        SyncEvent::RemoteUrl(_) => w == SyncWait::RemoteUrl,
        SyncEvent::Counts(_) => w == SyncWait::Counts,
        SyncEvent::Upstream(_) => w == SyncWait::Upstream,
    }
}

/// One step of a fetch or pull.
pub open spec fn sync_next(f: SyncFlow, ev: SyncEvent, r: (SyncFlow, SyncAsk)) -> bool {
    match ev {
        SyncEvent::DefaultRemote(Err(e)) => sync_fails_as(r, e),
        SyncEvent::DefaultRemote(Ok(name)) => r.0.wait == SyncWait::RemoteUrl && r.0.remote@ == name@
            && (r.1 matches SyncAsk::RemoteUrl(n) && n@ == name@),
        SyncEvent::RemoteUrl(Err(e)) => sync_fails_as(r, e),
        SyncEvent::RemoteUrl(Ok(url)) => plans(
            r,
            "fetch"@,
            username_override(url@) + seq!["fetch"@, "--progress"@, f.remote@],
            "fetch "@ + f.remote@ + " ("@ + url@ + ")"@,
        ),
        SyncEvent::Counts(Err(_)) => sync_fails(r, bad("Cannot read the worktree"@)),
        SyncEvent::Counts(Ok(c)) => if c.0 != 0 || c.1 != 0 || c.2 != 0 {
            sync_fails(
                r,
                (
                    ErrorCode::DIRTY_WORKTREE,
                    "Stash or commit your changes before pulling"@,
                    RecoveryAction::InspectState,
                    false,
                ),
            )
        } else {
            r.0.wait == SyncWait::Upstream && r.1 is ReadUpstream
        },
        SyncEvent::Upstream(Err(_)) => sync_fails(r, bad("Cannot read the upstream"@)),
        SyncEvent::Upstream(Ok(None)) => sync_fails(r, bad("No upstream configured for the current branch"@)),
        SyncEvent::Upstream(Ok(Some((remote, url)))) => plans(
            r,
            "pull"@,
            username_override(url@) + seq!["pull"@, "--ff-only"@, "--progress"@],
            "pull --ff-only "@ + remote@ + " ("@ + url@ + ")"@,
        ),
    }
}

fn end(v: Result<JobPlan, AppError>) -> (r: (SyncFlow, SyncAsk))
    ensures
        r.0.wait == SyncWait::Nothing,
        r.1 == SyncAsk::Done(v),
{
    (SyncFlow { wait: SyncWait::Nothing, remote: String::new() }, SyncAsk::Done(v))
}

fn check_session(reg: &RepoRegistry, repo_id: &str, expected_version: u64, action: &str) -> (r: Result<(), AppError>)
    requires
        reg.wf(),
    ensures
        match session_error(*reg, repo_id@, expected_version, action@) {
            None => r is Ok,
            Some(x) => r matches Err(e) && is_error(e, x.0, x.1, x.2, x.3),
        },
{
    let session = match reg.session(repo_id) {
        Some(s) => s,
        None => {
            return Err(session_missing());
        },
    };
    if session.trust != TrustState::Trusted {
        return Err(trust_required(action));
    }
    if session.version != expected_version {
        return Err(stale_state());
    }
    Ok(())
}

/// Start a fetch from `remote`, or from the default remote.
pub fn fetch_begin(reg: &RepoRegistry, repo_id: &str, expected_version: u64, remote: Option<&str>) -> (r: (
    SyncFlow,
    SyncAsk,
))
    requires
        reg.wf(),
    ensures
        fetch_start(
            *reg,
            repo_id@,
            expected_version,
            match remote {
                Some(n) => Some(n@),
                None => None,
            },
            r,
        ),
{
    if let Err(e) = check_session(reg, repo_id, expected_version, "fetch from remotes") {
        return end(Err(e));
    }
    match remote {
        Some(name) => {
            if let Err(e) = check_remote_name(name) {
                return end(Err(e));
            }
            (SyncFlow { wait: SyncWait::RemoteUrl, remote: string_lit(name) }, SyncAsk::RemoteUrl(string_lit(name)))
        },
        None => (SyncFlow { wait: SyncWait::DefaultRemote, remote: String::new() }, SyncAsk::DefaultRemote),
    }
}

/// Start a pull of the current branch's upstream.
pub fn pull_begin(reg: &RepoRegistry, repo_id: &str, expected_version: u64) -> (r: (SyncFlow, SyncAsk))
    requires
        reg.wf(),
    ensures
        pull_start(*reg, repo_id@, expected_version, r),
{
    if let Err(e) = check_session(reg, repo_id, expected_version, "pull from remotes") {
        return end(Err(e));
    }
    (SyncFlow { wait: SyncWait::Counts, remote: String::new() }, SyncAsk::ReadCounts)
}

/// Whether `ev` answers what `f` waits for.
pub fn sync_event_fits(f: &SyncFlow, ev: &SyncEvent) -> (r: bool)
    ensures
        r == sync_fits(f.wait, *ev),
{
    match ev {
        SyncEvent::DefaultRemote(_) => f.wait == SyncWait::DefaultRemote,
        SyncEvent::RemoteUrl(_) => f.wait == SyncWait::RemoteUrl,
        SyncEvent::Counts(_) => f.wait == SyncWait::Counts,
        SyncEvent::Upstream(_) => f.wait == SyncWait::Upstream,
    }
}

/// One step of a fetch or pull.
pub fn sync_step(f: SyncFlow, ev: SyncEvent) -> (r: (SyncFlow, SyncAsk))
    requires
        sync_fits(f.wait, ev),
    ensures
        sync_next(f, ev, r),
{
    match ev {
        SyncEvent::DefaultRemote(Err(e)) => end(Err(e)),
        SyncEvent::DefaultRemote(Ok(name)) => {
            let n = string_lit(name.as_str());
            (SyncFlow { wait: SyncWait::RemoteUrl, remote: name }, SyncAsk::RemoteUrl(n))
        },
        SyncEvent::RemoteUrl(Err(e)) => end(Err(e)),
        SyncEvent::RemoteUrl(Ok(url)) => {
            let (argv, summary) = fetch_plan(f.remote.as_str(), url.as_str());
            end(Ok(JobPlan { kind: string_lit("fetch"), argv, summary }))
        },
        SyncEvent::Counts(Err(_)) => end(Err(bad_request_str("Cannot read the worktree"))),
        SyncEvent::Counts(Ok((staged, unstaged, conflicted))) => {
            if let Err(e) = check_pull_clean(staged, unstaged, conflicted) {
                return end(Err(e));
            }
            (SyncFlow { wait: SyncWait::Upstream, remote: String::new() }, SyncAsk::ReadUpstream)
        },
        SyncEvent::Upstream(Err(_)) => end(Err(bad_request_str("Cannot read the upstream"))),
        SyncEvent::Upstream(Ok(None)) => end(Err(bad_request_str("No upstream configured for the current branch"))),
        SyncEvent::Upstream(Ok(Some((remote, url)))) => {
            let (argv, summary) = pull_plan(remote.as_str(), url.as_str());
            end(Ok(JobPlan { kind: string_lit("pull"), argv, summary }))
        },
    }
}

} // verus!
