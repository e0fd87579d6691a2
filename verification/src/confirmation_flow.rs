//! `confirmation_prepare`: the single entry point that issues every
//! single-use confirmation token. The flow checks the session, trust and
//! version, routes the action and checks the shape of its targets, asks
//! the shell for what only Git or the worktree can tell, builds the
//! summary the user confirms, and issues a token bound to the repository,
//! version, action and targets. A refused request issues nothing.

use vstd::prelude::*;
use crate::error::bad;
use crate::branch::{
    check_delete_target, confirmation_route, confirmation_trust_action, copy_ref, delete_error,
    delete_line_text, delete_summary_line, find_ref, join_lines, joined, move_summary, move_text,
    route_of, short_name_of, ConfirmationRoute,
};
use crate::domain::{ConfirmationDetails, RefItem, TrustState};
use crate::error::{bad_request_str, is_error, session_missing, stale_state, trust_required, AppError, ErrorCode, RecoveryAction};
use crate::history::ref_with_id;
use crate::merge::{abort_summary_text, abort_text, copy_merge_record_opt, MergeRecord};
use crate::registry::RepoRegistry;
use crate::stage::{
    discard_file_summary, discard_file_text, discard_hunk_summary, discard_hunk_text, history_action,
    history_summary, history_text,
};
use crate::text::{starts_with, str_eq, string_lit, string_views};

verus! {

/// The answer a confirmation flow waits for.
#[derive(Debug, Clone, Copy, PartialEq, Eq, Structural)]
pub enum PrepareWait {
    Refs,
    Merged,
    MergeHead,
    Head,
    Accept,
    File,
    Hunk,
    Nothing,
}

/// A confirmation being prepared.
pub struct PrepareFlow {
    pub wait: PrepareWait,
    pub repo_id: String,
    pub version: u64,
    pub action: String,
    pub targets: Vec<String>,
    pub expires_at: u64,
    /// The refs listed for a branch move or delete.
    pub refs: Vec<RefItem>,
    /// The delete target whose merge state is asked.
    pub next: usize,
    pub cur_name: String,
    pub cur_oid: String,
    /// The summary lines of the delete targets checked so far.
    pub lines: Vec<String>,
    /// The merge record an abort confirms.
    pub record: Option<MergeRecord>,
}

/// What the shell does next.
pub enum PrepareAsk {
    /// List the refs of the repository.
    ListRefs,
    /// Report whether this commit is merged into HEAD.
    IsMerged(String),
    /// Report whether the merge marker (`MERGE_HEAD`) is still there.
    MergeHeadLive,
    /// Report the HEAD commit id.
    ReadHead,
    /// Build the whole-file accept summary of this conflicted path and side.
    AcceptSummary { path_id: String, side: String },
    /// Resolve the path, whether Git tracks it, and its content fingerprint.
    DiscardFile { path_id: String },
    /// Resolve the path and check that the hunk exists in its worktree patch.
    DiscardHunk { path_id: String, hunk_id: String },
    /// The flow ended: the issued confirmation, or the refusal.
    Done(Result<ConfirmationDetails, AppError>),
}

/// What the shell found.
pub enum PrepareEvent {
    Refs(Result<Vec<RefItem>, AppError>),
    Merged(bool),
    MergeHeadLive(bool),
    Head(Result<String, AppError>),
    Accept(Result<String, AppError>),
    /// The raw path, whether Git tracks it, and the content fingerprint.
    File(Result<(Vec<u8>, bool, String), AppError>),
    /// The raw path of a hunk that exists.
    Hunk(Result<Vec<u8>, AppError>),
}

/// The flow's own fields stay coherent with its action and targets.
pub open spec fn flow_ok(f: PrepareFlow) -> bool {
    &&& f.wait == PrepareWait::Refs && f.action@ == "branch_move"@ ==> f.targets@.len() == 2
    &&& f.wait == PrepareWait::Refs && f.action@ != "branch_move"@ ==> 1 <= f.targets@.len()
    &&& f.wait == PrepareWait::Merged ==> f.next < f.targets@.len() && f.lines@.len() == f.next
    &&& f.wait == PrepareWait::Head || f.wait == PrepareWait::MergeHead ==> f.record is Some
    &&& f.wait == PrepareWait::File ==> f.targets@.len() == 1
}

/// The flow carries the request it was started for.
pub open spec fn same_request(a: PrepareFlow, b: PrepareFlow) -> bool {
    &&& a.repo_id@ == b.repo_id@
    &&& a.version == b.version
    &&& a.action@ == b.action@
    &&& string_views(a.targets@) == string_views(b.targets@)
    &&& a.targets@.len() == b.targets@.len()
    &&& a.expires_at == b.expires_at
}

/// The flow ended with this refusal and the registry is untouched.
pub open spec fn refused(
    reg0: RepoRegistry,
    reg1: RepoRegistry,
    r: (PrepareFlow, PrepareAsk),
    x: (ErrorCode, Seq<char>, RecoveryAction, bool),
) -> bool {
    &&& reg1 == reg0
    &&& r.0.wait == PrepareWait::Nothing
    &&& r.1 matches PrepareAsk::Done(Err(e)) && is_error(e, x.0, x.1, x.2, x.3)
}

/// The flow ended with the shell's own error, and the registry is untouched.
pub open spec fn passed_on(reg0: RepoRegistry, reg1: RepoRegistry, r: (PrepareFlow, PrepareAsk), e: AppError) -> bool {
    &&& reg1 == reg0
    &&& r.0.wait == PrepareWait::Nothing
    &&& r.1 == PrepareAsk::Done(Err(e))
}

/// The flow ended by issuing a token for this repository, version and
/// action, bound to `binding` until `expires_at`, with this summary;
/// sessions and log are untouched.
pub open spec fn issued(
    reg0: RepoRegistry,
    reg1: RepoRegistry,
    repo_id: Seq<char>,
    version: u64,
    action: Seq<char>,
    expires_at: u64,
    binding: Seq<Seq<char>>,
    summary: Seq<char>,
    r: (PrepareFlow, PrepareAsk),
) -> bool {
    &&& r.0.wait == PrepareWait::Nothing
    &&& reg1.wf()
    &&& reg1.sessions() == reg0.sessions()
    &&& reg1.log() == reg0.log()
    &&& r.1 matches PrepareAsk::Done(Ok(d)) && {
        &&& d.summary@ == summary
        &&& d.expires_at == expires_at
        &&& reg1.live(d.confirmation_token@)
        &&& forall|now: u64|
            now <= expires_at ==> #[trigger] reg1.bound(
                d.confirmation_token@,
                repo_id,
                version,
                action,
                binding,
                now,
            )
    }
}

/// The flow waits for `w` with `ask`, the registry untouched.
pub open spec fn asks(
    reg0: RepoRegistry,
    reg1: RepoRegistry,
    f: PrepareFlow,
    r: (PrepareFlow, PrepareAsk),
    w: PrepareWait,
) -> bool {
    &&& reg1 == reg0
    &&& r.0.wait == w
    &&& same_request(r.0, f)
    &&& flow_ok(r.0)
}

/// The trust error of a confirmation names what it would let happen.
pub open spec fn trust_action_of(action: Seq<char>) -> Seq<char> {
    if starts_with(action, "discard_"@) {
        "discard working changes"@
    } else {
        "delete branches"@
    }
}

/// Starting: session, trust and version first, then the route and the
/// shape of the targets, then the first question for the shell (or, for
/// a history rewrite, the token at once).
pub open spec fn prepare_start(
    reg0: RepoRegistry,
    reg1: RepoRegistry,
    repo_id: Seq<char>,
    expected_version: u64,
    action: Seq<char>,
    targets: Seq<Seq<char>>,
    expires_at: u64,
    r: (PrepareFlow, PrepareAsk),
) -> bool {
    match reg0.session_index(repo_id) {
        None => refused(
            reg0,
            reg1,
            r,
            (
                ErrorCode::REPO_UNAVAILABLE,
                "Repository session is no longer open"@,
                RecoveryAction::ChooseRepository,
                false,
            ),
        ),
        Some(i) => {
            let s = reg0.sessions()[i];
            if s.trust != TrustState::Trusted {
                refused(
                    reg0,
                    reg1,
                    r,
                    (
                        ErrorCode::TRUST_REQUIRED,
                        "Trust this repository to "@ + trust_action_of(action),
                        RecoveryAction::InspectState,
                        false,
                    ),
                )
            } else if s.version != expected_version {
                refused(
                    reg0,
                    reg1,
                    r,
                    (
                        ErrorCode::STALE_STATE,
                        "The repository changed under you; refresh and retry"@,
                        RecoveryAction::Refresh,
                        false,
                    ),
                )
            } else {
                let started = r.0.wait == PrepareWait::Nothing || (r.0.repo_id@ == repo_id
                    && r.0.version == expected_version && r.0.action@ == action && string_views(
                    r.0.targets@,
                ) == targets && r.0.targets@.len() == targets.len() && r.0.expires_at == expires_at
                    && flow_ok(r.0));
                started && match route_of(action, targets) {
                    Err(m) => refused(reg0, reg1, r, bad(m)),
                    Ok(ConfirmationRoute::Discard) => if action == "discard_file"@ && targets.len()
                        == 1 {
                        reg1 == reg0 && r.0.wait == PrepareWait::File && (r.1 matches PrepareAsk::DiscardFile {
                            path_id,
                        } && path_id@ == targets[0])
                    } else if action == "discard_hunk"@ && targets.len() == 2 {
                        reg1 == reg0 && r.0.wait == PrepareWait::Hunk && (r.1 matches PrepareAsk::DiscardHunk {
                            path_id,
                            hunk_id,
                        } && path_id@ == targets[0] && hunk_id@ == targets[1])
                    } else if history_action(action) && targets.len() == 1 {
                        issued(
                            reg0,
                            reg1,
                            repo_id,
                            expected_version,
                            action,
                            expires_at,
                            targets,
                            history_text(action, targets[0]),
                            r,
                        )
                    } else {
                        refused(reg0, reg1, r, bad("Invalid discard confirmation target"@))
                    },
                    Ok(ConfirmationRoute::BranchMove) | Ok(ConfirmationRoute::BranchDelete) => reg1
                        == reg0 && r.0.wait == PrepareWait::Refs && r.1 is ListRefs,
                    Ok(ConfirmationRoute::MergeAbort) => match s.merge {
                        None => refused(
                            reg0,
                            reg1,
                            r,
                            bad("Only merges started by the app can be aborted here"@),
                        ),
                        Some(rec) => reg1 == reg0 && r.0.wait == PrepareWait::MergeHead
                            && r.0.record == Some(rec) && r.1 is MergeHeadLive,
                    },
                    Ok(ConfirmationRoute::ConflictAccept) => if targets[1] != "current"@
                        && targets[1] != "incoming"@ {
                        refused(reg0, reg1, r, bad("Resolution side must be current or incoming"@))
                    } else {
                        reg1 == reg0 && r.0.wait == PrepareWait::Accept && (r.1 matches PrepareAsk::AcceptSummary {
                            path_id,
                            side,
                        } && path_id@ == targets[0] && side@ == targets[1])
                    },
                }
            }
        },
    }
}

/// Visiting delete target `i` of `f` against the listed refs: an unknown
/// ref or one that cannot be deleted ends the flow, otherwise the shell is
/// asked whether it is merged.
pub open spec fn delete_visit(
    reg0: RepoRegistry,
    reg1: RepoRegistry,
    f: PrepareFlow,
    refs: Seq<RefItem>,
    i: int,
    lines: Seq<Seq<char>>,
    r: (PrepareFlow, PrepareAsk),
) -> bool {
    match ref_with_id(refs, f.targets@[i]@) {
        None => refused(
            reg0,
            reg1,
            r,
            (ErrorCode::REF_INVALID, "Unknown branch reference"@, RecoveryAction::Refresh, true),
        ),
        Some(k) => match delete_error(refs[k]) {
            Some(x) => refused(reg0, reg1, r, (x.0, x.1, x.2, false)),
            None => asks(reg0, reg1, f, r, PrepareWait::Merged) && r.0.refs@ == refs && r.0.next
                == i && Some(r.0.cur_name@) == short_name_of(refs[k].full_name@) && r.0.cur_oid@
                == refs[k].oid@ && string_views(r.0.lines@) == lines && (r.1 matches PrepareAsk::IsMerged(
                oid,
            ) && oid@ == refs[k].oid@),
        },
    }
}

/// The event answers what the flow waits for.
pub open spec fn prepare_fits(w: PrepareWait, ev: PrepareEvent) -> bool {
    match ev {
        PrepareEvent::Refs(_) => w == PrepareWait::Refs,
        PrepareEvent::Merged(_) => w == PrepareWait::Merged,
        PrepareEvent::MergeHeadLive(_) => w == PrepareWait::MergeHead,
        PrepareEvent::Head(_) => w == PrepareWait::Head,
        PrepareEvent::Accept(_) => w == PrepareWait::Accept,
        PrepareEvent::File(_) => w == PrepareWait::File,
        PrepareEvent::Hunk(_) => w == PrepareWait::Hunk,
    }
}

/// One step of the flow.
pub open spec fn prepare_next(
    reg0: RepoRegistry,
    reg1: RepoRegistry,
    f: PrepareFlow,
    ev: PrepareEvent,
    r: (PrepareFlow, PrepareAsk),
) -> bool {
    let targets = string_views(f.targets@);
    match ev {
        PrepareEvent::Refs(Err(e)) => passed_on(reg0, reg1, r, e),
        PrepareEvent::Refs(Ok(refs)) => if f.action@ == "branch_move"@ {
            match ref_with_id(refs@, targets[0]) {
                None => refused(
                    reg0,
                    reg1,
                    r,
                    (ErrorCode::REF_INVALID, "Unknown branch reference"@, RecoveryAction::Refresh, true),
                ),
                Some(k) => match short_name_of(refs@[k].full_name@) {
                    None => refused(reg0, reg1, r, bad("Only local branches can be moved"@)),
                    Some(name) => issued(
                        reg0,
                        reg1,
                        f.repo_id@,
                        f.version,
                        f.action@,
                        f.expires_at,
                        targets,
                        move_text(name, refs@[k].oid@, targets[1]),
                        r,
                    ),
                },
            }
        } else {
            delete_visit(reg0, reg1, f, refs@, 0, seq![], r)
        },
        PrepareEvent::Merged(m) => {
            let lines = string_views(f.lines@).push(delete_line_text(f.cur_name@, f.cur_oid@, m));
            if f.next + 1 == f.targets@.len() {
                issued(reg0, reg1, f.repo_id@, f.version, f.action@, f.expires_at, targets, joined(lines), r)
            } else {
                delete_visit(reg0, reg1, f, f.refs@, f.next + 1, lines, r)
            }
        },
        PrepareEvent::MergeHeadLive(false) => refused(
            reg0,
            reg1,
            r,
            bad("The merge marker is gone; the merge already ended"@),
        ),
        PrepareEvent::MergeHeadLive(true) => asks(reg0, reg1, f, r, PrepareWait::Head) && r.0.record
            == f.record && r.1 is ReadHead,
        PrepareEvent::Head(Err(e)) => passed_on(reg0, reg1, r, e),
        PrepareEvent::Head(Ok(head)) => match f.record {
            Some(rec) => issued(reg0, reg1, f.repo_id@, f.version, f.action@, f.expires_at, targets, abort_text(rec, head@), r),
            None => false,
        },
        PrepareEvent::Accept(Err(e)) => passed_on(reg0, reg1, r, e),
        PrepareEvent::Accept(Ok(summary)) => issued(reg0, reg1, f.repo_id@, f.version, f.action@, f.expires_at, targets, summary@, r),
        PrepareEvent::File(Err(e)) => passed_on(reg0, reg1, r, e),
        PrepareEvent::File(Ok((raw, in_index, fingerprint))) => issued(
            reg0,
            reg1,
            f.repo_id@,
            f.version,
            f.action@,
            f.expires_at,
            seq![targets[0], fingerprint@],
            discard_file_text(raw@, in_index),
            r,
        ),
        PrepareEvent::Hunk(Err(e)) => passed_on(reg0, reg1, r, e),
        PrepareEvent::Hunk(Ok(raw)) => issued(reg0, reg1, f.repo_id@, f.version, f.action@, f.expires_at, targets, discard_hunk_text(raw@), r),
    }
}

fn ended() -> (f: PrepareFlow)
    ensures
        f.wait == PrepareWait::Nothing,
{
    PrepareFlow {
        wait: PrepareWait::Nothing,
        repo_id: String::new(),
        version: 0,
        action: String::new(),
        targets: Vec::new(),
        expires_at: 0,
        refs: Vec::new(),
        next: 0,
        cur_name: String::new(),
        cur_oid: String::new(),
        lines: Vec::new(),
        record: None,
    }
}

fn fail(e: AppError) -> (r: (PrepareFlow, PrepareAsk))
    ensures
        r.0.wait == PrepareWait::Nothing,
        r.1 == PrepareAsk::Done(Err(e)),
{
    (ended(), PrepareAsk::Done(Err(e)))
}

/// Issue the token for `f` bound to `binding` with `summary`.
fn issue(reg: &mut RepoRegistry, f: &PrepareFlow, binding: &[String], summary: String) -> (r: (
    PrepareFlow,
    PrepareAsk,
))
    requires
        old(reg).wf(),
    ensures
        issued(
            *old(reg),
            *final(reg),
            f.repo_id@,
            f.version,
            f.action@,
            f.expires_at,
            string_views(binding@),
            summary@,
            r,
        ),
{
    let (token, expires_at) = reg.confirmation_issue(
        f.repo_id.as_str(),
        f.version,
        f.action.as_str(),
        binding,
        f.expires_at,
    );
    (
        ended(),
        PrepareAsk::Done(Ok(ConfirmationDetails { confirmation_token: token, summary, expires_at })),
    )
}

fn copy_refs(v: &[RefItem]) -> (r: Vec<RefItem>)
    ensures
        r@ == v@,
{
    let mut r: Vec<RefItem> = Vec::new();
    let mut i: usize = 0;
    while i < v.len()
        invariant
            i <= v@.len(),
            r@ == v@.take(i as int),
        decreases v.len() - i,
    {
        r.push(copy_ref(&v[i]));
        i += 1;
        assert(r@ =~= v@.take(i as int));
    }
    assert(v@.take(v@.len() as int) =~= v@);
    r
}

/// Start preparing a confirmation for `action` on `targets`, valid until
/// `expires_at` once issued.
pub fn prepare_begin(
    reg: &mut RepoRegistry,
    repo_id: &str,
    expected_version: u64,
    action: &str,
    targets: &[String],
    expires_at: u64,
) -> (r: (PrepareFlow, PrepareAsk))
    requires
        old(reg).wf(),
    ensures
        final(reg).wf(),
        prepare_start(
            *old(reg),
            *final(reg),
            repo_id@,
            expected_version,
            action@,
            string_views(targets@),
            expires_at,
            r,
        ),
{
    let session = match reg.session(repo_id) {
        Some(s) => s,
        None => {
            return fail(session_missing());
        },
    };
    if session.trust != TrustState::Trusted {
        return fail(trust_required(confirmation_trust_action(action)));
    }
    if session.version != expected_version {
        return fail(stale_state());
    }
    let record = copy_merge_record_opt(&session.merge);
    let route = match confirmation_route(action, targets) {
        Ok(k) => k,
        Err(e) => {
            return fail(e);
        },
    };
    let ghost tv = string_views(targets@);
    proof {
        assert(forall|k: int| 0 <= k < targets@.len() ==> tv[k] == (#[trigger] targets@[k])@);
    }
    let mut f = ended();
    f.repo_id = string_lit(repo_id);
    f.version = expected_version;
    f.action = string_lit(action);
    f.targets = crate::registry::copy_strings(targets);
    f.expires_at = expires_at;
    assert(string_views(f.targets@) == tv);
    assert(route_of(action@, tv) == Ok::<ConfirmationRoute, Seq<char>>(route));
    match route {
        ConfirmationRoute::Discard => {
            if str_eq(action, "discard_file") && targets.len() == 1 {
                f.wait = PrepareWait::File;
                let path_id = string_lit(targets[0].as_str());
                (f, PrepareAsk::DiscardFile { path_id })
            } else if str_eq(action, "discard_hunk") && targets.len() == 2 {
                f.wait = PrepareWait::Hunk;
                let path_id = string_lit(targets[0].as_str());
                let hunk_id = string_lit(targets[1].as_str());
                (f, PrepareAsk::DiscardHunk { path_id, hunk_id })
            } else if (str_eq(action, "history_reset_hard") || str_eq(action, "history_rebase")
                || str_eq(action, "history_rebase_interactive") || str_eq(action, "history_split"))
                && targets.len() == 1 {
                let summary = history_summary(action, targets[0].as_str());
                issue(reg, &f, targets, summary)
            } else {
                fail(bad_request_str("Invalid discard confirmation target"))
            }
        },
        ConfirmationRoute::BranchMove | ConfirmationRoute::BranchDelete => {
            f.wait = PrepareWait::Refs;
            (f, PrepareAsk::ListRefs)
        },
        ConfirmationRoute::MergeAbort => {
            match record {
                None => fail(bad_request_str("Only merges started by the app can be aborted here")),
                Some(rec) => {
                    f.wait = PrepareWait::MergeHead;
                    f.record = Some(rec);
                    (f, PrepareAsk::MergeHeadLive)
                },
            }
        },
        ConfirmationRoute::ConflictAccept => {
            if !str_eq(targets[1].as_str(), "current") && !str_eq(targets[1].as_str(), "incoming") {
                fail(bad_request_str("Resolution side must be current or incoming"))
            } else {
                f.wait = PrepareWait::Accept;
                let path_id = string_lit(targets[0].as_str());
                let side = string_lit(targets[1].as_str());
                (f, PrepareAsk::AcceptSummary { path_id, side })
            }
        },
    }
}

/// Whether `ev` answers what `f` waits for.
pub fn prepare_event_fits(f: &PrepareFlow, ev: &PrepareEvent) -> (r: bool)
    ensures
        r == prepare_fits(f.wait, *ev),
{
    match ev {
        PrepareEvent::Refs(_) => f.wait == PrepareWait::Refs,
        PrepareEvent::Merged(_) => f.wait == PrepareWait::Merged,
        PrepareEvent::MergeHeadLive(_) => f.wait == PrepareWait::MergeHead,
        PrepareEvent::Head(_) => f.wait == PrepareWait::Head,
        PrepareEvent::Accept(_) => f.wait == PrepareWait::Accept,
        PrepareEvent::File(_) => f.wait == PrepareWait::File,
        PrepareEvent::Hunk(_) => f.wait == PrepareWait::Hunk,
    }
}

/// Check delete target `i` against `refs` and ask about it.
fn visit(
    reg: &RepoRegistry,
    f: PrepareFlow,
    refs: Vec<RefItem>,
    i: usize,
    lines: Vec<String>,
) -> (r: (PrepareFlow, PrepareAsk))
    requires
        i < f.targets@.len(),
        lines@.len() == i,
        flow_ok(f),
    ensures
        delete_visit(*reg, *reg, f, refs@, i as int, string_views(lines@), r),
{
    let target = match find_ref(refs.as_slice(), f.targets[i].as_str()) {
        Ok(t) => t,
        Err(e) => {
            return fail(e);
        },
    };
    let name = match check_delete_target(&target) {
        Ok(n) => n,
        Err(e) => {
            return fail(e);
        },
    };
    let oid = string_lit(target.oid.as_str());
    let mut g = f;
    g.wait = PrepareWait::Merged;
    g.refs = refs;
    g.next = i;
    g.cur_name = name;
    g.cur_oid = string_lit(target.oid.as_str());
    g.lines = lines;
    (g, PrepareAsk::IsMerged(oid))
}

/// One step of a confirmation flow.
pub fn prepare_step(reg: &mut RepoRegistry, f: PrepareFlow, ev: PrepareEvent) -> (r: (
    PrepareFlow,
    PrepareAsk,
))
    requires
        old(reg).wf(),
        flow_ok(f),
        prepare_fits(f.wait, ev),
    ensures
        final(reg).wf(),
        prepare_next(*old(reg), *final(reg), f, ev, r),
{
    let ghost tv = string_views(f.targets@);
    proof {
        assert(forall|k: int| 0 <= k < f.targets@.len() ==> tv[k] == (#[trigger] f.targets@[k])@);
    }
    match ev {
        PrepareEvent::Refs(Err(e)) => fail(e),
        PrepareEvent::Refs(Ok(refs)) => {
            if str_eq(f.action.as_str(), "branch_move") {
                let target = match find_ref(refs.as_slice(), f.targets[0].as_str()) {
                    Ok(t) => t,
                    Err(e) => {
                        return fail(e);
                    },
                };
                match move_summary(&target, f.targets[1].as_str()) {
                    Ok(summary) => issue(reg, &f, f.targets.as_slice(), summary),
                    Err(e) => fail(e),
                }
            } else {
                let r = visit(reg, f, refs, 0, Vec::new());
                proof {
                    assert(string_views(Seq::<String>::empty()) =~= Seq::<Seq<char>>::empty());
                }
                r
            }
        },
        PrepareEvent::Merged(m) => {
            let line = delete_summary_line(f.cur_name.as_str(), f.cur_oid.as_str(), m);
            let mut lines = f.lines.clone();
            assert(lines@ == f.lines@);
            lines.push(line);
            assert(string_views(lines@) =~= string_views(f.lines@).push(
                delete_line_text(f.cur_name@, f.cur_oid@, m),
            ));
            assert(f.next < f.targets.len());
            if f.next + 1 == f.targets.len() {
                let summary = join_lines(lines.as_slice());
                issue(reg, &f, f.targets.as_slice(), summary)
            } else {
                let refs = copy_refs(f.refs.as_slice());
                let i = f.next + 1;
                let mut g = f;
                g.wait = PrepareWait::Nothing;
                g.lines = Vec::new();
                g.refs = Vec::new();
                visit(reg, g, refs, i, lines)
            }
        },
        PrepareEvent::MergeHeadLive(live) => {
            if !live {
                fail(bad_request_str("The merge marker is gone; the merge already ended"))
            } else {
                let mut g = f;
                g.wait = PrepareWait::Head;
                (g, PrepareAsk::ReadHead)
            }
        },
        PrepareEvent::Head(Err(e)) => fail(e),
        PrepareEvent::Head(Ok(head)) => {
            match &f.record {
                Some(rec) => {
                    let summary = abort_summary_text(rec, head.as_str());
                    issue(reg, &f, f.targets.as_slice(), summary)
                },
                None => fail(bad_request_str("Only merges started by the app can be aborted here")),
            }
        },
        PrepareEvent::Accept(Err(e)) => fail(e),
        PrepareEvent::Accept(Ok(summary)) => issue(reg, &f, f.targets.as_slice(), summary),
        PrepareEvent::File(Err(e)) => fail(e),
        PrepareEvent::File(Ok((raw, in_index, fingerprint))) => {
            let summary = discard_file_summary(raw.as_slice(), in_index);
            let mut binding: Vec<String> = Vec::new();
            binding.push(string_lit(f.targets[0].as_str()));
            binding.push(fingerprint);
            assert(string_views(binding@) =~= seq![tv[0], fingerprint@]);
            issue(reg, &f, binding.as_slice(), summary)
        },
        PrepareEvent::Hunk(Err(e)) => fail(e),
        PrepareEvent::Hunk(Ok(raw)) => {
            let summary = discard_hunk_summary(raw.as_slice());
            issue(reg, &f, f.targets.as_slice(), summary)
        },
    }
}

} // verus!
