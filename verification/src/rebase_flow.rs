//! `history_rebase_interactive` as a sequence of checks, Git reads and one
//! rebase. The flow checks the session, then asks that the selected commit
//! exists, that HEAD is on a branch, that no merge or rebase is running
//! and that the worktree is clean; checks the plan's shape; consumes the
//! confirmation bound to the selected commit; validates every plan entry
//! (action, commit, reword message) and that something is kept; then
//! demands that the plan lists exactly the commits from the selection up
//! to HEAD, and only then builds the todo file and asks for the rebase.

use vstd::prelude::*;
use crate::error::bad;
use crate::domain::TrustState;
use crate::error::{is_error, session_missing, stale_state, trust_required, AppError, ErrorCode, RecoveryAction};
use crate::history_actions::{
    all_known, check_plan_keeps, check_plan_shape, check_rebase_parent, check_rebase_range,
    check_reword_entry, known_action, plan_action, plan_keeps_some, plan_oids, rebase_todo,
    reword_message_ok, todo_upto, RebaseInteractiveRequest, RebasePlanEntry,
};
use crate::lines::trimmed_lines;
use crate::registry::{changed, not_confirmed, RepoRegistry};
use crate::text::{string_lit, string_views};

verus! {

/// The answer a rebase flow waits for.
#[derive(Debug, Clone, Copy, PartialEq, Eq, Structural)]
pub enum RebaseWait {
    Oid,
    Branch,
    NoOperation,
    Clean,
    EntryOid,
    Parent,
    Range,
    Subjects,
    Run,
    Nothing,
}

/// An interactive rebase in progress.
pub struct RebaseFlow {
    pub wait: RebaseWait,
    pub repo_id: String,
    pub version: u64,
    pub oid: String,
    pub plan: Vec<RebasePlanEntry>,
    pub token: String,
    /// The plan entry whose commit is being checked.
    pub next: usize,
    /// The parent of the selected commit.
    pub parent: String,
}

/// What the shell does next.
pub enum RebaseAsk {
    /// Check that this is an existing commit of the repository.
    CheckOid(String),
    /// Check that HEAD is on a branch.
    CheckHeadBranch,
    /// Check that no merge or rebase is in progress.
    CheckNoOperation,
    /// Check that the worktree is clean.
    CheckClean,
    /// `git rev-parse <oid>^`.
    ReadParent(String),
    /// `git rev-list --topo-order --reverse <parent>..HEAD`.
    ReadRange(String),
    /// The subject of every plan commit (empty where Git cannot tell), and
    /// a private directory for the todo file and the reword messages.
    ReadSubjects,
    /// Write the todo (and each reword's trimmed message) into the
    /// directory, then `git rebase -i <parent>` with that todo.
    Run { parent: String, todo: String },
    Done(Result<(), AppError>),
}

/// What the shell found.
pub enum RebaseEvent {
    /// A check passed, or the error it ended with.
    Checked(Result<(), AppError>),
    /// The worktree check, and the time at which the confirmation is used.
    Clean { result: Result<(), AppError>, now: u64 },
    /// The parent commit, `None` for a root commit.
    Parent(Result<Option<String>, AppError>),
    /// What `rev-list` printed.
    Range(Result<String, AppError>),
    Subjects { subjects: Vec<String>, script_dir: String },
    /// Whether the rebase finished.
    Ran(Result<bool, AppError>),
}

/// The flow ended with this error.
pub open spec fn rebase_fails(r: (RebaseFlow, RebaseAsk), x: (ErrorCode, Seq<char>, RecoveryAction, bool)) -> bool {
    r.0.wait == RebaseWait::Nothing && (r.1 matches RebaseAsk::Done(Err(e)) && is_error(e, x.0, x.1, x.2, x.3))
}

/// The flow ended with the shell's own error.
pub open spec fn rebase_fails_as(r: (RebaseFlow, RebaseAsk), e: AppError) -> bool {
    r.0.wait == RebaseWait::Nothing && r.1 == RebaseAsk::Done(Err(e))
}

/// The request travels unchanged.
pub open spec fn rebase_keeps(a: RebaseFlow, b: RebaseFlow) -> bool {
    &&& a.repo_id@ == b.repo_id@
    &&& a.version == b.version
    &&& a.oid@ == b.oid@
    &&& a.plan@ == b.plan@
    &&& a.token@ == b.token@
}

/// The registry as far as any refusal leaves it.
pub open spec fn untouched(reg0: RepoRegistry, reg1: RepoRegistry) -> bool {
    &&& reg1.sessions() == reg0.sessions()
    &&& reg1.confirmations() == reg0.confirmations()
    &&& reg1.log() == reg0.log()
    &&& reg1.histories() == reg0.histories()
}

/// What the flow has checked so far still holds of its own fields.
pub open spec fn rebase_ok(f: RebaseFlow) -> bool {
    &&& f.wait == RebaseWait::EntryOid ==> f.next < f.plan@.len() && forall|k: int|
        0 <= k <= f.next ==> known_action((#[trigger] f.plan@[k]).action@)
    &&& f.wait == RebaseWait::Parent || f.wait == RebaseWait::Range || f.wait == RebaseWait::Subjects
        ==> all_known(f.plan@)
}

pub open spec fn rebase_start(
    reg: RepoRegistry,
    request: RebaseInteractiveRequest,
    r: (RebaseFlow, RebaseAsk),
) -> bool {
    match reg.session_index(request.repo_id@) {
        None => rebase_fails(
            r,
            (
                ErrorCode::REPO_UNAVAILABLE,
                "Repository session is no longer open"@,
                RecoveryAction::ChooseRepository,
                false,
            ),
        ),
        Some(i) => if reg.sessions()[i].trust != TrustState::Trusted {
            rebase_fails(
                r,
                (
                    ErrorCode::TRUST_REQUIRED,
                    "Trust this repository to "@ + "rebase"@,
                    RecoveryAction::InspectState,
                    false,
                ),
            )
        } else if reg.sessions()[i].version != request.expected_version {
            rebase_fails(
                r,
                (
                    ErrorCode::STALE_STATE,
                    "The repository changed under you; refresh and retry"@,
                    RecoveryAction::Refresh,
                    false,
                ),
            )
        } else {
            &&& r.0.wait == RebaseWait::Oid
            &&& r.0.repo_id@ == request.repo_id@
            &&& r.0.version == request.expected_version
            &&& r.0.oid@ == request.oid@
            &&& r.0.plan@ == request.plan@
            &&& r.0.token@ == request.confirmation_token@
            &&& r.1 matches RebaseAsk::CheckOid(o) && o@ == request.oid@
        },
    }
}

pub open spec fn rebase_fits(w: RebaseWait, ev: RebaseEvent) -> bool {
    match ev {
        RebaseEvent::Checked(_) => w == RebaseWait::Oid || w == RebaseWait::Branch || w
            == RebaseWait::NoOperation || w == RebaseWait::EntryOid,
        RebaseEvent::Clean { .. } => w == RebaseWait::Clean,
        RebaseEvent::Parent(_) => w == RebaseWait::Parent,
        RebaseEvent::Range(_) => w == RebaseWait::Range,
        RebaseEvent::Subjects { .. } => w == RebaseWait::Subjects,
        RebaseEvent::Ran(_) => w == RebaseWait::Run,
    }
}

/// Subjects come one per plan entry (empty where Git could not tell).
pub open spec fn subjects_fit(f: RebaseFlow, ev: RebaseEvent) -> bool {
    ev matches RebaseEvent::Subjects { subjects, .. } ==> subjects@.len() == f.plan@.len()
}

/// Validate plan entry `i`: its action must be known, then its commit is
/// checked by the shell.
pub open spec fn entry_visit(f: RebaseFlow, i: int, r: (RebaseFlow, RebaseAsk)) -> bool {
    if !known_action(f.plan@[i].action@) {
        rebase_fails(r, bad("Unknown rebase plan action"@))
    } else {
        &&& r.0.wait == RebaseWait::EntryOid
        &&& rebase_keeps(f, r.0)
        &&& r.0.next == i
        &&& r.1 matches RebaseAsk::CheckOid(o) && o@ == f.plan@[i].oid@
    }
}

/// One step of the flow. The step that consumes the confirmation spends
/// the token; a rebase that ran (finished or stopped) moves the version on
/// and drops the repository's pinned history walks; every other step leaves
/// the registry as it was.
pub open spec fn rebase_next(
    reg0: RepoRegistry,
    reg1: RepoRegistry,
    f: RebaseFlow,
    ev: RebaseEvent,
    r: (RebaseFlow, RebaseAsk),
) -> bool {
    match ev {
        RebaseEvent::Clean { result, now } => match result {
            Err(e) => untouched(reg0, reg1) && rebase_fails_as(r, e),
            Ok(()) => if f.plan@.len() == 0 || f.plan@.len() > 200 {
                untouched(reg0, reg1) && rebase_fails(r, bad("The rebase plan must list 1..=200 commits"@))
            } else if f.plan@[0].oid@ != f.oid@ {
                untouched(reg0, reg1) && rebase_fails(
                    r,
                    bad("The rebase plan must start at the selected commit"@),
                )
            } else if !reg0.bound(
                f.token@,
                f.repo_id@,
                f.version,
                "history_rebase_interactive"@,
                seq![f.oid@],
                now,
            ) {
                untouched(reg0, reg1) && rebase_fails(
                    r,
                    bad("Confirmation is missing, expired or does not match; confirm again"@),
                )
            } else {
                &&& reg1.sessions() == reg0.sessions()
                &&& reg1.log() == reg0.log()
                &&& reg1.histories() == reg0.histories()
                &&& !reg1.live(f.token@)
                &&& entry_visit(f, 0, r)
            }
        },
        RebaseEvent::Ran(Ok(done)) => {
            &&& changed(reg0, reg1, f.repo_id@, None, None, 1, true)
            &&& if done {
                r.0.wait == RebaseWait::Nothing && r.1 == RebaseAsk::Done(Ok(()))
            } else {
                rebase_fails(
                    r,
                    (
                        ErrorCode::CONFLICTS_PRESENT,
                        "The interactive rebase stopped; finish it in a terminal (git status, resolve, GIT_EDITOR=true git rebase --continue, or git rebase --abort)"@,
                        RecoveryAction::InspectState,
                        false,
                    ),
                )
            }
        },
        _ => untouched(reg0, reg1) && match ev {
            RebaseEvent::Checked(Err(e)) => rebase_fails_as(r, e),
            RebaseEvent::Checked(Ok(())) => match f.wait {
                RebaseWait::Oid => r.0.wait == RebaseWait::Branch && rebase_keeps(f, r.0) && r.1 is CheckHeadBranch,
                RebaseWait::Branch => r.0.wait == RebaseWait::NoOperation && rebase_keeps(f, r.0)
                    && r.1 is CheckNoOperation,
                RebaseWait::NoOperation => r.0.wait == RebaseWait::Clean && rebase_keeps(f, r.0) && r.1 is CheckClean,
                _ => {
                    let e = f.plan@[f.next as int];
                    if e.action@ == "reword"@ && !reword_message_ok(e) {
                        rebase_fails(r, bad("Reword needs a message of 1..=500 characters"@))
                    } else if f.next + 1 < f.plan@.len() {
                        entry_visit(f, f.next + 1, r)
                    } else if !plan_keeps_some(f.plan@) {
                        rebase_fails(r, bad("Dropping every commit would delete the branch"@))
                    } else {
                        &&& r.0.wait == RebaseWait::Parent
                        &&& rebase_keeps(f, r.0)
                        &&& r.1 matches RebaseAsk::ReadParent(o) && o@ == f.oid@
                    }
                },
            },
            RebaseEvent::Parent(Err(e)) => rebase_fails_as(r, e),
            RebaseEvent::Parent(Ok(None)) => rebase_fails(
                r,
                bad("The root commit cannot start an interactive rebase"@),
            ),
            RebaseEvent::Parent(Ok(Some(p))) => r.0.wait == RebaseWait::Range && rebase_keeps(f, r.0)
                && r.0.parent@ == p@ && (r.1 matches RebaseAsk::ReadRange(q) && q@ == p@),
            RebaseEvent::Range(Err(e)) => rebase_fails_as(r, e),
            RebaseEvent::Range(Ok(out)) => if trimmed_lines(out@) != plan_oids(f.plan@) {
                rebase_fails(
                    r,
                    (
                        ErrorCode::STALE_STATE,
                        "The history changed or is not fully loaded; refresh and retry"@,
                        RecoveryAction::Refresh,
                        true,
                    ),
                )
            } else {
                r.0.wait == RebaseWait::Subjects && rebase_keeps(f, r.0) && r.0.parent@ == f.parent@
                    && r.1 is ReadSubjects
            },
            RebaseEvent::Subjects { subjects, script_dir } => {
                &&& r.0.wait == RebaseWait::Run
                &&& rebase_keeps(f, r.0)
                &&& r.1 matches RebaseAsk::Run { parent, todo } && parent@ == f.parent@ && todo@
                    == todo_upto(f.plan@, string_views(subjects@), script_dir@, f.plan@.len())
            },
            RebaseEvent::Ran(Err(e)) => rebase_fails_as(r, e),
            _ => true,
        },
    }
}

fn fail(f: RebaseFlow, e: AppError) -> (r: (RebaseFlow, RebaseAsk))
    ensures
        rebase_fails_as(r, e),
        r.0 == (RebaseFlow { wait: RebaseWait::Nothing, ..f }),
{
    let mut g = f;
    g.wait = RebaseWait::Nothing;
    (g, RebaseAsk::Done(Err(e)))
}

/// Start an interactive rebase.
pub fn rebase_begin(reg: &RepoRegistry, request: RebaseInteractiveRequest) -> (r: (RebaseFlow, RebaseAsk))
    requires
        reg.wf(),
    ensures
        rebase_start(*reg, request, r),
        rebase_ok(r.0),
{
    let ghost req = request;
    let RebaseInteractiveRequest { request_id: _, repo_id, expected_version, oid, plan, confirmation_token } =
        request;
    let f = RebaseFlow {
        wait: RebaseWait::Nothing,
        repo_id,
        version: expected_version,
        oid,
        plan,
        token: confirmation_token,
        next: 0,
        parent: String::new(),
    };
    let session = match reg.session(f.repo_id.as_str()) {
        Some(s) => s,
        None => {
            return fail(f, session_missing());
        },
    };
    if session.trust != TrustState::Trusted {
        return fail(f, trust_required("rebase"));
    }
    if session.version != expected_version {
        return fail(f, stale_state());
    }
    let o = string_lit(f.oid.as_str());
    let mut g = f;
    g.wait = RebaseWait::Oid;
    (g, RebaseAsk::CheckOid(o))
}

/// Whether `ev` answers what `f` waits for.
pub fn rebase_event_fits(f: &RebaseFlow, ev: &RebaseEvent) -> (r: bool)
    ensures
        r == rebase_fits(f.wait, *ev),
{
    match ev {
        RebaseEvent::Checked(_) => f.wait == RebaseWait::Oid || f.wait == RebaseWait::Branch || f.wait
            == RebaseWait::NoOperation || f.wait == RebaseWait::EntryOid,
        RebaseEvent::Clean { .. } => f.wait == RebaseWait::Clean,
        RebaseEvent::Parent(_) => f.wait == RebaseWait::Parent,
        RebaseEvent::Range(_) => f.wait == RebaseWait::Range,
        RebaseEvent::Subjects { .. } => f.wait == RebaseWait::Subjects,
        RebaseEvent::Ran(_) => f.wait == RebaseWait::Run,
    }
}

fn visit(f: RebaseFlow, i: usize) -> (r: (RebaseFlow, RebaseAsk))
    requires
        i < f.plan@.len(),
        forall|k: int| 0 <= k < i ==> known_action((#[trigger] f.plan@[k]).action@),
    ensures
        entry_visit(f, i as int, r),
        rebase_ok(r.0),
{
    if let Err(e) = plan_action(&f.plan[i]) {
        return fail(f, e);
    }
    let o = string_lit(f.plan[i].oid.as_str());
    let mut g = f;
    g.wait = RebaseWait::EntryOid;
    g.next = i;
    (g, RebaseAsk::CheckOid(o))
}

/// One step of an interactive rebase.
#[verifier::rlimit(40)]
pub fn rebase_step(reg: &mut RepoRegistry, f: RebaseFlow, ev: RebaseEvent) -> (r: (RebaseFlow, RebaseAsk))
    requires
        old(reg).wf(),
        rebase_fits(f.wait, ev),
        subjects_fit(f, ev),
        rebase_ok(f),
    ensures
        final(reg).wf(),
        rebase_next(*old(reg), *final(reg), f, ev, r),
        rebase_ok(r.0),
{
    match ev {
        RebaseEvent::Clean { result, now } => {
            if let Err(e) = result {
                return fail(f, e);
            }
            if let Err(e) = check_plan_shape(f.oid.as_str(), f.plan.as_slice()) {
                return fail(f, e);
            }
            let mut targets: Vec<String> = Vec::new();
            targets.push(string_lit(f.oid.as_str()));
            assert(string_views(targets@) =~= seq![f.oid@]);
            if let Err(_) = reg.confirmation_consume(
                f.repo_id.as_str(),
                f.version,
                "history_rebase_interactive",
                targets.as_slice(),
                f.token.as_str(),
                now,
            ) {
                return fail(f, not_confirmed());
            }
            visit(f, 0)
        },
        RebaseEvent::Checked(Err(e)) => fail(f, e),
        RebaseEvent::Checked(Ok(())) => {
            match f.wait {
                RebaseWait::Oid => {
                    let mut g = f;
                    g.wait = RebaseWait::Branch;
                    (g, RebaseAsk::CheckHeadBranch)
                },
                RebaseWait::Branch => {
                    let mut g = f;
                    g.wait = RebaseWait::NoOperation;
                    (g, RebaseAsk::CheckNoOperation)
                },
                RebaseWait::NoOperation => {
                    let mut g = f;
                    g.wait = RebaseWait::Clean;
                    (g, RebaseAsk::CheckClean)
                },
                _ => {
                    let i = f.next;
                    assert(f.wait == RebaseWait::EntryOid);
                    assert(i < f.plan.len());
                    if let Err(e) = check_reword_entry(&f.plan[i]) {
                        return fail(f, e);
                    }
                    if i + 1 < f.plan.len() {
                        return visit(f, i + 1);
                    }
                    assert(forall|k: int| 0 <= k < f.plan@.len() ==> known_action((#[trigger] f.plan@[k]).action@));
                    if let Err(e) = check_plan_keeps(f.plan.as_slice()) {
                        return fail(f, e);
                    }
                    let o = string_lit(f.oid.as_str());
                    let mut g = f;
                    g.wait = RebaseWait::Parent;
                    (g, RebaseAsk::ReadParent(o))
                },
            }
        },
        RebaseEvent::Parent(Err(e)) => fail(f, e),
        RebaseEvent::Parent(Ok(parent)) => {
            if let Err(e) = check_rebase_parent(parent.is_some()) {
                return fail(f, e);
            }
            let p = parent.unwrap();
            let q = string_lit(p.as_str());
            let mut g = f;
            g.wait = RebaseWait::Range;
            g.parent = p;
            (g, RebaseAsk::ReadRange(q))
        },
        RebaseEvent::Range(Err(e)) => fail(f, e),
        RebaseEvent::Range(Ok(out)) => {
            if let Err(e) = check_rebase_range(out.as_str(), f.plan.as_slice()) {
                return fail(f, e);
            }
            let mut g = f;
            g.wait = RebaseWait::Subjects;
            (g, RebaseAsk::ReadSubjects)
        },
        RebaseEvent::Subjects { subjects, script_dir } => {
            let todo = match rebase_todo(f.plan.as_slice(), subjects.as_slice(), script_dir.as_str()) {
                Ok(t) => t,
                Err(e) => {
                    return fail(f, e);
                },
            };
            let parent = string_lit(f.parent.as_str());
            let mut g = f;
            g.wait = RebaseWait::Run;
            (g, RebaseAsk::Run { parent, todo })
        },
        RebaseEvent::Ran(Err(e)) => fail(f, e),
        RebaseEvent::Ran(Ok(done)) => {
            reg.settle(f.repo_id.as_str(), None, None, 1, true);
            if done {
                let mut g = f;
                g.wait = RebaseWait::Nothing;
                (g, RebaseAsk::Done(Ok(())))
            } else {
                fail(
                    f,
                    AppError::new(
                        ErrorCode::CONFLICTS_PRESENT,
                        string_lit(
                            "The interactive rebase stopped; finish it in a terminal (git status, resolve, GIT_EDITOR=true git rebase --continue, or git rebase --abort)",
                        ),
                        RecoveryAction::InspectState,
                        false,
                    ),
                )
            }
        },
    }
}

} // verus!
