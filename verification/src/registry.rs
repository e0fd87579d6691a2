//! The repository registry: one session per open repository (trust, the
//! version every write is checked against, the repository state and the
//! record of a merge the app started) and the single-use confirmation tokens that guard destructive actions. A token
//! is bound to one repository, version, action and target list, expires,
//! and is consumed by its first successful use. It also keeps the pinned
//! history walks that paging reads, which a write to their repository
//! drops.

use vstd::prelude::*;
use crate::domain::{OperationLogEntry, RepoState, TrustState};
use crate::error::{bad_request_str, is_error, AppError, ErrorCode, RecoveryAction};
use crate::history::TopoRow;
use crate::merge::MergeRecord;
use crate::text::{str_eq, string_lit, string_views};

verus! {

/// One open repository.
#[derive(Debug)]
pub struct RepoSession {
    pub repo_id: String,
    pub trust: TrustState,
    /// Bumped by every write; requests name the version they saw.
    pub version: u64,
    pub state: RepoState,
    /// Set while a merge the app started is in flight.
    pub merge: Option<MergeRecord>,
    /// Seconds since the epoch of the last successful fetch.
    pub last_fetch: Option<u64>,
}

/// One issued confirmation.
pub struct Confirmation {
    pub token: String,
    pub repo_id: String,
    pub version: u64,
    pub action: String,
    pub targets: Vec<String>,
    pub expires_at: u64,
    pub live: bool,
}

/// A pinned history walk: the topology one query saw, paged by cursors
/// that name its session id.
pub struct HistoryPin {
    pub session_id: String,
    pub repo_id: String,
    pub topo: Vec<TopoRow>,
    pub truncated: bool,
}

pub struct RepoRegistry {
    sessions: Vec<RepoSession>,
    confirmations: Vec<Confirmation>,
    log: Vec<(String, OperationLogEntry)>,
    histories: Vec<HistoryPin>,
}

impl RepoRegistry {
    pub closed spec fn sessions(self) -> Seq<RepoSession> {
        self.sessions@
    }

    pub closed spec fn confirmations(self) -> Seq<Confirmation> {
        self.confirmations@
    }

    /// The operation log, oldest first, each row with its repository.
    pub closed spec fn log(self) -> Seq<(String, OperationLogEntry)> {
        self.log@
    }

    /// The pinned history walks, oldest first.
    pub closed spec fn histories(self) -> Seq<HistoryPin> {
        self.histories@
    }

    /// One session per repository id and one live confirmation per token.
    pub closed spec fn wf(self) -> bool {
        &&& forall|i: int, j: int|
            #![trigger self.sessions@[i], self.sessions@[j]]
            0 <= i < j < self.sessions@.len() ==> self.sessions@[i].repo_id@
                != self.sessions@[j].repo_id@
        &&& forall|i: int, j: int|
            #![trigger self.confirmations@[i], self.confirmations@[j]]
            0 <= i < j < self.confirmations@.len() && self.confirmations@[i].live
                && self.confirmations@[j].live ==> self.confirmations@[i].token@
                != self.confirmations@[j].token@
    }

    /// Position of the session of `repo_id`.
    pub open spec fn session_index(self, repo_id: Seq<char>) -> Option<int> {
        if exists|i: int| 0 <= i < self.sessions().len() && self.sessions()[i].repo_id@ == repo_id {
            Some(
                choose|i: int|
                    0 <= i < self.sessions().len() && self.sessions()[i].repo_id@ == repo_id,
            )
        } else {
            None
        }
    }

    /// `token` is a live confirmation.
    pub open spec fn live(self, token: Seq<char>) -> bool {
        exists|i: int|
            0 <= i < self.confirmations().len() && (#[trigger] self.confirmations()[i]).live
                && self.confirmations()[i].token@ == token
    }

    /// `token` is live, bound to exactly this repository, version, action
    /// and target list, and not expired at `now`.
    pub open spec fn bound(
        self,
        token: Seq<char>,
        repo_id: Seq<char>,
        version: u64,
        action: Seq<char>,
        targets: Seq<Seq<char>>,
        now: u64,
    ) -> bool {
        exists|i: int|
            0 <= i < self.confirmations().len() && binds(
                #[trigger] self.confirmations()[i],
                token,
                repo_id,
                version,
                action,
                targets,
                now,
            )
    }

    proof fn lemma_session_index(self, i: int)
        requires
            self.wf(),
            0 <= i < self.sessions().len(),
        ensures
            self.session_index(self.sessions()[i].repo_id@) == Some(i),
    {
        let r = self.sessions()[i].repo_id@;
        let w = choose|k: int| 0 <= k < self.sessions().len() && self.sessions()[k].repo_id@ == r;
        if w < i {
            assert(self.sessions()[w].repo_id@ != self.sessions()[i].repo_id@);
        } else if w > i {
            assert(self.sessions()[i].repo_id@ != self.sessions()[w].repo_id@);
        }
    }

    pub fn new() -> (r: Self)
        ensures
            r.wf(),
            r.sessions() == Seq::<RepoSession>::empty(),
            r.confirmations() == Seq::<Confirmation>::empty(),
            r.log() == Seq::<(String, OperationLogEntry)>::empty(),
            r.histories() == Seq::<HistoryPin>::empty(),
    {
        RepoRegistry { sessions: Vec::new(), confirmations: Vec::new(), log: Vec::new(), histories: Vec::new() }
    }

    fn find_session(&self, repo_id: &str) -> (r: Option<usize>)
        requires
            self.wf(),
        ensures
            match r {
                Some(i) => i < self.sessions().len() && self.session_index(repo_id@) == Some(
                    i as int,
                ),
                None => self.session_index(repo_id@) is None,
            },
    {
        let mut i: usize = 0;
        while i < self.sessions.len()
            invariant
                self.wf(),
                i <= self.sessions@.len(),
                forall|k: int| 0 <= k < i ==> (#[trigger] self.sessions@[k]).repo_id@ != repo_id@,
            decreases self.sessions.len() - i,
        {
            if str_eq(self.sessions[i].repo_id.as_str(), repo_id) {
                proof {
                    self.lemma_session_index(i as int);
                }
                return Some(i);
            }
            i += 1;
        }
        None
    }

    /// The session of `repo_id`, if it is open.
    pub fn session(&self, repo_id: &str) -> (r: Option<&RepoSession>)
        requires
            self.wf(),
        ensures
            match self.session_index(repo_id@) {
                Some(i) => r == Some(&self.sessions()[i]),
                None => r is None,
            },
    {
        match self.find_session(repo_id) {
            Some(i) => Some(&self.sessions[i]),
            None => None,
        }
    }

    /// Open a session: a known repository keeps its session, a new one
    /// starts at version 0 in the normal state with no merge record.
    pub fn open(&mut self, repo_id: &str, trust: TrustState)
        requires
            old(self).wf(),
        ensures
            final(self).wf(),
            final(self).confirmations() == old(self).confirmations(),
            final(self).log() == old(self).log(),
            old(self).session_index(repo_id@) is Some ==> final(self).sessions() == old(self).sessions(),
            old(self).session_index(repo_id@) is None ==> final(self).sessions().len() == old(self).sessions().len() + 1 && final(self).sessions().drop_last() == old(self).sessions()
                && final(self).sessions().last().repo_id@ == repo_id@ && final(self).sessions().last().trust == trust && final(self).sessions().last().version == 0
                && final(self).sessions().last().state == RepoState::Normal && final(self).sessions().last().merge is None,
    {
        if self.find_session(repo_id).is_some() {
            return;
        }
        let ghost before = self.sessions@;
        assert forall|k: int| 0 <= k < before.len() implies (#[trigger] before[k]).repo_id@
            != repo_id@ by {
            if before[k].repo_id@ == repo_id@ {
                assert(self.sessions()[k] == before[k]);
            }
        }
        self.sessions.push(
            RepoSession {
                repo_id: string_lit(repo_id),
                trust,
                version: 0,
                state: RepoState::Normal,
                merge: None,
                last_fetch: None,
            },
        );
        proof {
            assert forall|i: int, j: int|
                #![trigger self.sessions@[i], self.sessions@[j]]
                0 <= i < j < self.sessions@.len() implies self.sessions@[i].repo_id@
                != self.sessions@[j].repo_id@ by {
                assert(self.sessions@[i] == before[i]);
                if j < before.len() {
                    assert(self.sessions@[j] == before[j]);
                } else {
                    assert(self.sessions@[j].repo_id@ == repo_id@);
                }
            }
            assert(self.sessions@.drop_last() =~= before);
        }
    }

    /// Replace the session at `i` by `s`, which keeps its repository id.
    fn put(&mut self, i: usize, s: RepoSession)
        requires
            old(self).wf(),
            i < old(self).sessions().len(),
            s.repo_id@ == old(self).sessions()[i as int].repo_id@,
        ensures
            final(self).wf(),
            final(self).sessions() == old(self).sessions().update(i as int, s),
            final(self).confirmations() == old(self).confirmations(),
            final(self).log() == old(self).log(),
            final(self).histories() == old(self).histories(),
    {
        let ghost before = self.sessions@;
        self.sessions.set(i, s);
        proof {
            assert forall|a: int, b: int|
                #![trigger self.sessions@[a], self.sessions@[b]]
                0 <= a < b < self.sessions@.len() implies self.sessions@[a].repo_id@
                != self.sessions@[b].repo_id@ by {
                assert(self.sessions@[a].repo_id@ == before[a].repo_id@);
                assert(self.sessions@[b].repo_id@ == before[b].repo_id@);
            }
        }
    }

    /// A write finished: the version moves on (saturating), so tokens and
    /// requests that named the old version are stale.
    pub fn bump(&mut self, repo_id: &str)
        requires
            old(self).wf(),
        ensures
            final(self).wf(),
            final(self).confirmations() == old(self).confirmations(),
            final(self).log() == old(self).log(),
            match old(self).session_index(repo_id@) {
                Some(i) => final(self).sessions().len() == old(self).sessions().len()
                    && final(self).sessions()[i].version == (if old(self).sessions()[i].version
                    == u64::MAX {
                    u64::MAX
                } else {
                    (old(self).sessions()[i].version + 1) as u64
                }) && final(self).sessions()[i].repo_id == old(self).sessions()[i].repo_id
                    && final(self).sessions()[i].trust == old(self).sessions()[i].trust
                    && final(self).sessions()[i].state == old(self).sessions()[i].state
                    && final(self).sessions()[i].merge == old(self).sessions()[i].merge
                    && final(self).sessions()[i].last_fetch == old(self).sessions()[i].last_fetch
                    && forall|k: int|
                    0 <= k < old(self).sessions().len() && k != i ==> #[trigger] final(self).sessions()[k] == old(self).sessions()[k],
                None => final(self).sessions() == old(self).sessions(),
            },
            match old(self).session_index(repo_id@) {
                Some(i) => final(self).sessions() == old(self).sessions().update(
                    i,
                    RepoSession { version: next_version(old(self).sessions()[i].version), ..old(self).sessions()[i] },
                ),
                None => true,
            },
    {
        match self.find_session(repo_id) {
            Some(i) => {
                let cur = &self.sessions[i];
                let s = RepoSession {
                    repo_id: cur.repo_id.clone(),
                    trust: cur.trust,
                    version: cur.version.saturating_add(1),
                    state: cur.state,
                    merge: crate::merge::copy_merge_record_opt(&cur.merge),
                    last_fetch: cur.last_fetch,
                };
                self.put(i, s);
            },
            None => {},
        }
    }

    /// Record the merge the app just started, or forget it (`None`).
    pub fn set_merge(&mut self, repo_id: &str, record: Option<MergeRecord>)
        requires
            old(self).wf(),
        ensures
            final(self).wf(),
            final(self).confirmations() == old(self).confirmations(),
            final(self).log() == old(self).log(),
            match old(self).session_index(repo_id@) {
                Some(i) => final(self).sessions().len() == old(self).sessions().len()
                    && final(self).sessions()[i].merge == record && final(self).sessions()[i].version
                    == old(self).sessions()[i].version && final(self).sessions()[i].repo_id
                    == old(self).sessions()[i].repo_id && final(self).sessions()[i].trust == old(self).sessions()[i].trust && final(self).sessions()[i].state == old(self).sessions()[i].state && final(self).sessions()[i].last_fetch == old(self).sessions()[i].last_fetch && forall|k: int|
                    0 <= k < old(self).sessions().len() && k != i ==> #[trigger] final(self).sessions()[k] == old(self).sessions()[k],
                None => final(self).sessions() == old(self).sessions(),
            },
    {
        match self.find_session(repo_id) {
            Some(i) => {
                let cur = &self.sessions[i];
                let s = RepoSession {
                    repo_id: cur.repo_id.clone(),
                    trust: cur.trust,
                    version: cur.version,
                    state: cur.state,
                    merge: record,
                    last_fetch: cur.last_fetch,
                };
                self.put(i, s);
            },
            None => {},
        }
    }

    /// Change the repository state (merging, stash conflict, normal).
    pub fn set_state(&mut self, repo_id: &str, state: RepoState)
        requires
            old(self).wf(),
        ensures
            final(self).wf(),
            final(self).confirmations() == old(self).confirmations(),
            final(self).log() == old(self).log(),
            match old(self).session_index(repo_id@) {
                Some(i) => final(self).sessions() == old(self).sessions().update(
                    i,
                    RepoSession { state, ..old(self).sessions()[i] },
                ),
                None => final(self).sessions() == old(self).sessions(),
            },
    {
        match self.find_session(repo_id) {
            Some(i) => {
                let cur = &self.sessions[i];
                let s = RepoSession {
                    repo_id: cur.repo_id.clone(),
                    trust: cur.trust,
                    version: cur.version,
                    state,
                    merge: crate::merge::copy_merge_record_opt(&cur.merge),
                    last_fetch: cur.last_fetch,
                };
                self.put(i, s);
            },
            None => {},
        }
    }

    /// Pin a history walk under `session_id`.
    pub fn pin_history(&mut self, session_id: &str, repo_id: &str, topo: Vec<TopoRow>, truncated: bool)
        requires
            old(self).wf(),
        ensures
            final(self).wf(),
            final(self).sessions() == old(self).sessions(),
            final(self).confirmations() == old(self).confirmations(),
            final(self).log() == old(self).log(),
            final(self).histories().len() == old(self).histories().len() + 1,
            final(self).histories().drop_last() == old(self).histories(),
            final(self).histories().last().session_id@ == session_id@,
            final(self).histories().last().repo_id@ == repo_id@,
            final(self).histories().last().topo@ == topo@,
            final(self).histories().last().truncated == truncated,
    {
        let pin = HistoryPin {
            session_id: string_lit(session_id),
            repo_id: string_lit(repo_id),
            topo,
            truncated,
        };
        self.histories.push(pin);
        assert(self.histories@.drop_last() =~= old(self).histories@);
    }

    /// The pinned walk a cursor names, if it is still pinned.
    pub fn pinned_history(&self, session_id: &str) -> (r: Option<&HistoryPin>)
        ensures
            match pin_index(self.histories(), session_id@) {
                Some(i) => r == Some(&self.histories()[i]),
                None => r is None,
            },
    {
        let mut i: usize = 0;
        while i < self.histories.len()
            invariant
                i <= self.histories@.len(),
                forall|k: int| 0 <= k < i ==> (#[trigger] self.histories@[k]).session_id@ != session_id@,
            decreases self.histories.len() - i,
        {
            if str_eq(self.histories[i].session_id.as_str(), session_id) {
                proof {
                    lemma_pin_index(self.histories@, session_id@, i as int);
                }
                return Some(&self.histories[i]);
            }
            i += 1;
        }
        None
    }

    /// Drop every pinned walk of `repo_id`: a write changed its history.
    pub fn invalidate_history(&mut self, repo_id: &str)
        requires
            old(self).wf(),
        ensures
            final(self).wf(),
            final(self).sessions() == old(self).sessions(),
            final(self).confirmations() == old(self).confirmations(),
            final(self).log() == old(self).log(),
            final(self).histories() == other_histories(old(self).histories(), repo_id@),
    {
        let ghost h0 = self.histories@;
        let mut rest: Vec<HistoryPin> = Vec::new();
        std::mem::swap(&mut rest, &mut self.histories);
        let ghost mut k: int = 0;
        assert(h0.take(0) =~= Seq::<HistoryPin>::empty());
        assert(h0.skip(0) =~= h0);
        while rest.len() > 0
            invariant
                self.sessions == old(self).sessions,
                self.confirmations == old(self).confirmations,
                self.log == old(self).log,
                self.wf(),
                0 <= k <= h0.len(),
                self.histories@ == other_histories(h0.take(k), repo_id@),
                rest@ == h0.skip(k),
            decreases rest.len(),
        {
            let p = rest.remove(0);
            proof {
                assert(h0.take(k + 1).drop_last() =~= h0.take(k));
                assert(h0.take(k + 1).last() == h0[k]);
                assert(rest@ =~= h0.skip(k + 1));
            }
            if !str_eq(p.repo_id.as_str(), repo_id) {
                self.histories.push(p);
            }
            proof {
                k = k + 1;
            }
        }
        assert(h0.take(h0.len() as int) =~= h0);
    }

    /// A write to `repo_id` finished: set the merge record and the state
    /// where given, move the version on `bumps` times (saturating), and
    /// drop its pinned history walks when `drop_history`.
    pub fn settle(
        &mut self,
        repo_id: &str,
        merge: Option<Option<MergeRecord>>,
        state: Option<RepoState>,
        bumps: u64,
        drop_history: bool,
    )
        requires
            old(self).wf(),
        ensures
            final(self).wf(),
            changed(*old(self), *final(self), repo_id@, merge, state, bumps as nat, drop_history),
    {
        match self.find_session(repo_id) {
            Some(i) => {
                let v0 = self.sessions[i].version;
                let mut v = v0;
                let mut k: u64 = 0;
                while k < bumps
                    invariant
                        k <= bumps,
                        v == bumped_by(v0, k as nat),
                    decreases bumps - k,
                {
                    v = v.saturating_add(1);
                    k += 1;
                }
                let cur = &self.sessions[i];
                let s = RepoSession {
                    repo_id: cur.repo_id.clone(),
                    trust: cur.trust,
                    version: v,
                    state: match state {
                        Some(t) => t,
                        None => cur.state,
                    },
                    merge: match merge {
                        Some(m) => m,
                        None => crate::merge::copy_merge_record_opt(&cur.merge),
                    },
                    last_fetch: cur.last_fetch,
                };
                self.put(i, s);
            },
            None => {},
        }
        if drop_history {
            self.invalidate_history(repo_id);
        }
    }

    /// A remote job succeeded: the version moves on (saturating), and a
    /// fetch records when it happened (seconds since the epoch).
    pub fn remote_succeeded(&mut self, repo_id: &str, fetched_at: Option<u64>)
        requires
            old(self).wf(),
        ensures
            final(self).wf(),
            final(self).confirmations() == old(self).confirmations(),
            final(self).log() == old(self).log(),
            match old(self).session_index(repo_id@) {
                Some(i) => final(self).sessions() == old(self).sessions().update(
                    i,
                    RepoSession {
                        version: if old(self).sessions()[i].version == u64::MAX {
                            u64::MAX
                        } else {
                            (old(self).sessions()[i].version + 1) as u64
                        },
                        last_fetch: match fetched_at {
                            Some(t) => Some(t),
                            None => old(self).sessions()[i].last_fetch,
                        },
                        ..old(self).sessions()[i]
                    },
                ),
                None => final(self).sessions() == old(self).sessions(),
            },
    {
        match self.find_session(repo_id) {
            Some(i) => {
                let cur = &self.sessions[i];
                let s = RepoSession {
                    repo_id: cur.repo_id.clone(),
                    trust: cur.trust,
                    version: cur.version.saturating_add(1),
                    state: cur.state,
                    merge: crate::merge::copy_merge_record_opt(&cur.merge),
                    last_fetch: match fetched_at {
                        Some(t) => Some(t),
                        None => cur.last_fetch,
                    },
                };
                self.put(i, s);
            },
            None => {},
        }
    }

    /// Append a row to the operation log of `repo_id`, numbered after the
    /// rows already there.
    pub fn log_push(
        &mut self,
        repo_id: &str,
        kind: &str,
        summary: &str,
        outcome: &str,
        error_code: Option<String>,
        at: u64,
    )
        requires
            old(self).wf(),
        ensures
            final(self).wf(),
            final(self).sessions() == old(self).sessions(),
            final(self).confirmations() == old(self).confirmations(),
            final(self).log().len() == old(self).log().len() + 1,
            final(self).log().drop_last() == old(self).log(),
            final(self).log().last().0@ == repo_id@,
            final(self).log().last().1.seq == old(self).log().len(),
            final(self).log().last().1.at == at,
            final(self).log().last().1.kind@ == kind@,
            final(self).log().last().1.summary@ == summary@,
            final(self).log().last().1.outcome@ == outcome@,
            final(self).log().last().1.error_code == error_code,
    {
        let ghost before = self.log@;
        let seq = self.log.len() as u64;
        let entry = OperationLogEntry {
            seq,
            at,
            kind: string_lit(kind),
            summary: string_lit(summary),
            outcome: string_lit(outcome),
            error_code,
        };
        self.log.push((string_lit(repo_id), entry));
        assert(self.log@.drop_last() =~= before);
    }

    /// Issue a confirmation for `action` on `targets` of `repo_id` at
    /// `version`, valid until `expires_at`. Any older live confirmation
    /// that happens to carry the same random token is withdrawn.
    pub fn confirmation_issue(
        &mut self,
        repo_id: &str,
        version: u64,
        action: &str,
        targets: &[String],
        expires_at: u64,
    ) -> (r: (String, u64))
        requires
            old(self).wf(),
        ensures
            final(self).wf(),
            final(self).sessions() == old(self).sessions(),
            final(self).log() == old(self).log(),
            r.1 == expires_at,
            final(self).live(r.0@),
            forall|now: u64|
                now <= expires_at ==> #[trigger] final(self).bound(
                    r.0@,
                    repo_id@,
                    version,
                    action@,
                    string_views(targets@),
                    now,
                ),
    {
        let token = crate::sync::random_operation_id();
        let mut i: usize = 0;
        while i < self.confirmations.len()
            invariant
                self.sessions == old(self).sessions,
                self.log == old(self).log,
                self.wf(),
                i <= self.confirmations@.len(),
                forall|k: int|
                    0 <= k < i ==> !((#[trigger] self.confirmations@[k]).live
                        && self.confirmations@[k].token@ == token@),
            decreases self.confirmations.len() - i,
        {
            if self.confirmations[i].live && str_eq(self.confirmations[i].token.as_str(), token.as_str()) {
                let ghost before = self.confirmations@;
                let c = Confirmation {
                    token: self.confirmations[i].token.clone(),
                    repo_id: self.confirmations[i].repo_id.clone(),
                    version: self.confirmations[i].version,
                    action: self.confirmations[i].action.clone(),
                    targets: copy_strings(&self.confirmations[i].targets),
                    expires_at: self.confirmations[i].expires_at,
                    live: false,
                };
                self.confirmations.set(i, c);
                proof {
                    assert forall|a: int, b: int|
                        #![trigger self.confirmations@[a], self.confirmations@[b]]
                        0 <= a < b < self.confirmations@.len() && self.confirmations@[a].live
                            && self.confirmations@[b].live implies self.confirmations@[a].token@
                        != self.confirmations@[b].token@ by {
                        assert(a != i && b != i);
                        assert(self.confirmations@[a] == before[a]);
                        assert(self.confirmations@[b] == before[b]);
                    }
                    assert forall|k: int| 0 <= k <= i implies !((
                    #[trigger] self.confirmations@[k]).live && self.confirmations@[k].token@
                        == token@) by {
                        if k < i {
                            assert(self.confirmations@[k] == before[k]);
                        }
                    }
                }
            }
            i += 1;
        }
        let ghost before = self.confirmations@;
        let c = Confirmation {
            token: token.clone(),
            repo_id: string_lit(repo_id),
            version,
            action: string_lit(action),
            targets: copy_strings(targets),
            expires_at,
            live: true,
        };
        self.confirmations.push(c);
        proof {
            let n = before.len() as int;
            assert(self.confirmations@[n] == c);
            assert(self.live(token@)) by {
                assert(self.confirmations()[n].live && self.confirmations()[n].token@ == token@);
            }
            assert forall|a: int, b: int|
                #![trigger self.confirmations@[a], self.confirmations@[b]]
                0 <= a < b < self.confirmations@.len() && self.confirmations@[a].live
                    && self.confirmations@[b].live implies self.confirmations@[a].token@
                != self.confirmations@[b].token@ by {
                assert(self.confirmations@[a] == before[a]);
                if b < n {
                    assert(self.confirmations@[b] == before[b]);
                }
            }
            assert forall|now: u64| now <= expires_at implies #[trigger] self.bound(
                token@,
                repo_id@,
                version,
                action@,
                string_views(targets@),
                now,
            ) by {
                assert(binds(self.confirmations()[n], token@, repo_id@, version, action@, string_views(targets@), now));
            }
        }
        (token, expires_at)
    }

    fn find_live(&self, token: &str) -> (r: Option<usize>)
        ensures
            match r {
                Some(i) => i < self.confirmations@.len() && self.confirmations@[i as int].live
                    && self.confirmations@[i as int].token@ == token@ && forall|k: int|
                    0 <= k < i ==> !((#[trigger] self.confirmations@[k]).live
                        && self.confirmations@[k].token@ == token@),
                None => forall|k: int|
                    0 <= k < self.confirmations@.len() ==> !((#[trigger] self.confirmations@[k]).live
                        && self.confirmations@[k].token@ == token@),
            },
    {
        let mut i: usize = 0;
        while i < self.confirmations.len()
            invariant
                i <= self.confirmations@.len(),
                forall|k: int|
                    0 <= k < i ==> !((#[trigger] self.confirmations@[k]).live
                        && self.confirmations@[k].token@ == token@),
            decreases self.confirmations.len() - i,
        {
            if self.confirmations[i].live && str_eq(self.confirmations[i].token.as_str(), token) {
                return Some(i);
            }
            i += 1;
        }
        None
    }

    /// Use a confirmation: it succeeds exactly when `token` is live, bound
    /// to this repository, version, action and target list, and not
    /// expired; success consumes it, a refusal changes nothing.
    pub fn confirmation_consume(
        &mut self,
        repo_id: &str,
        version: u64,
        action: &str,
        targets: &[String],
        token: &str,
        now: u64,
    ) -> (r: Result<(), AppError>)
        requires
            old(self).wf(),
        ensures
            final(self).wf(),
            final(self).sessions() == old(self).sessions(),
            final(self).log() == old(self).log(),
            final(self).histories() == old(self).histories(),
            r is Ok <==> old(self).bound(token@, repo_id@, version, action@, string_views(targets@), now),
            r is Ok ==> !final(self).live(token@),
            r is Err ==> final(self).confirmations() == old(self).confirmations(),
            r matches Err(e) ==> is_error(
                e,
                ErrorCode::INVALID_ARGUMENT,
                "Confirmation is missing, expired or does not match; confirm again"@,
                RecoveryAction::InspectState,
                false,
            ),
    {
        let found = self.find_live(token);
        let ghost tv = string_views(targets@);
        if found.is_none() {
            proof {
                assert(!self.bound(token@, repo_id@, version, action@, tv, now)) by {
                    if self.bound(token@, repo_id@, version, action@, tv, now) {
                        let w = choose|w: int|
                            0 <= w < self.confirmations().len() && binds(
                                #[trigger] self.confirmations()[w],
                                token@,
                                repo_id@,
                                version,
                                action@,
                                tv,
                                now,
                            );
                        assert(self.confirmations@[w].live && self.confirmations@[w].token@ == token@);
                    }
                }
            }
            return Err(not_confirmed());
        }
        let i = found.unwrap();
        let c = &self.confirmations[i];
        let matches = str_eq(c.repo_id.as_str(), repo_id) && c.version == version && str_eq(
            c.action.as_str(),
            action,
        ) && strings_eq(c.targets.as_slice(), targets) && now <= c.expires_at;
        proof {
            // The live entry for this token is unique, so it alone decides.
            assert forall|w: int|
                0 <= w < self.confirmations().len() && w != i && (
                #[trigger] self.confirmations()[w]).live implies self.confirmations()[w].token@
                != token@ by {
                if w < i {
                    assert(!(self.confirmations@[w].live && self.confirmations@[w].token@ == token@));
                } else {
                    assert(self.confirmations@[i as int].token@ != self.confirmations@[w].token@);
                }
            }
            if self.bound(token@, repo_id@, version, action@, tv, now) {
                let w = choose|w: int|
                    0 <= w < self.confirmations().len() && binds(
                        #[trigger] self.confirmations()[w],
                        token@,
                        repo_id@,
                        version,
                        action@,
                        tv,
                        now,
                    );
                assert(w == i);
            }
            if matches {
                assert(binds(self.confirmations()[i as int], token@, repo_id@, version, action@, tv, now));
            }
        }
        if !matches {
            return Err(not_confirmed());
        }
        let ghost before = self.confirmations@;
        let used = Confirmation {
            token: c.token.clone(),
            repo_id: c.repo_id.clone(),
            version: c.version,
            action: c.action.clone(),
            targets: copy_strings(&c.targets),
            expires_at: c.expires_at,
            live: false,
        };
        self.confirmations.set(i, used);
        proof {
            assert forall|a: int, b: int|
                #![trigger self.confirmations@[a], self.confirmations@[b]]
                0 <= a < b < self.confirmations@.len() && self.confirmations@[a].live
                    && self.confirmations@[b].live implies self.confirmations@[a].token@
                != self.confirmations@[b].token@ by {
                assert(a != i && b != i);
                assert(self.confirmations@[a] == before[a]);
                assert(self.confirmations@[b] == before[b]);
            }
            assert(!self.live(token@)) by {
                if self.live(token@) {
                    let w = choose|w: int|
                        0 <= w < self.confirmations().len() && (#[trigger] self.confirmations()[w]).live
                            && self.confirmations()[w].token@ == token@;
                    assert(w != i);
                    assert(self.confirmations@[w] == before[w]);
                }
            }
        }
        Ok(())
    }
}

/// The version after a write: one more, saturating.
pub open spec fn next_version(v: u64) -> u64 {
    if v == u64::MAX {
        u64::MAX
    } else {
        (v + 1) as u64
    }
}

/// The version after `n` writes.
pub open spec fn bumped_by(v: u64, n: nat) -> u64
    decreases n,
{
    if n == 0 {
        v
    } else {
        next_version(bumped_by(v, (n - 1) as nat))
    }
}

/// The pinned walks that belong to other repositories, in order.
pub open spec fn other_histories(hs: Seq<HistoryPin>, repo_id: Seq<char>) -> Seq<HistoryPin>
    decreases hs.len(),
{
    if hs.len() == 0 {
        Seq::empty()
    } else {
        let p = other_histories(hs.drop_last(), repo_id);
        if hs.last().repo_id@ == repo_id {
            p
        } else {
            p.push(hs.last())
        }
    }
}

/// Position of the first pinned walk with this session id.
pub open spec fn pin_index(hs: Seq<HistoryPin>, session_id: Seq<char>) -> Option<int> {
    if exists|i: int|
        0 <= i < hs.len() && hs[i].session_id@ == session_id && forall|k: int|
            0 <= k < i ==> (#[trigger] hs[k]).session_id@ != session_id {
        Some(
            choose|i: int|
                0 <= i < hs.len() && hs[i].session_id@ == session_id && forall|k: int|
                    0 <= k < i ==> (#[trigger] hs[k]).session_id@ != session_id,
        )
    } else {
        None
    }
}

proof fn lemma_pin_index(hs: Seq<HistoryPin>, session_id: Seq<char>, i: int)
    requires
        0 <= i < hs.len(),
        hs[i].session_id@ == session_id,
        forall|k: int| 0 <= k < i ==> (#[trigger] hs[k]).session_id@ != session_id,
    ensures
        pin_index(hs, session_id) == Some(i),
{
    let w = choose|k: int|
        0 <= k < hs.len() && hs[k].session_id@ == session_id && forall|m: int|
            0 <= m < k ==> (#[trigger] hs[m]).session_id@ != session_id;
    if w < i {
        assert(hs[w].session_id@ != session_id);
    }
    if i < w {
        assert(hs[i].session_id@ != session_id);
    }
}

/// What a write did to the registry: the session of `repo_id` got the
/// merge record and state where given and its version moved on `bumps`
/// times; its pinned walks are dropped when `drop_history`; confirmations
/// and the log are as they were.
pub open spec fn changed(
    reg0: RepoRegistry,
    reg1: RepoRegistry,
    repo_id: Seq<char>,
    merge: Option<Option<MergeRecord>>,
    state: Option<RepoState>,
    bumps: nat,
    drop_history: bool,
) -> bool {
    &&& reg1.confirmations() == reg0.confirmations()
    &&& reg1.log() == reg0.log()
    &&& reg1.histories() == (if drop_history {
        other_histories(reg0.histories(), repo_id)
    } else {
        reg0.histories()
    })
    &&& match reg0.session_index(repo_id) {
        Some(i) => {
            let s = reg0.sessions()[i];
            reg1.sessions() == reg0.sessions().update(
                i,
                RepoSession {
                    merge: match merge {
                        Some(m) => m,
                        None => s.merge,
                    },
                    state: match state {
                        Some(t) => t,
                        None => s.state,
                    },
                    version: bumped_by(s.version, bumps),
                    ..s
                },
            )
        },
        None => reg1.sessions() == reg0.sessions(),
    }
}

/// A confirmation binds `token` to these values and is still valid at
/// `now`.
pub open spec fn binds(
    c: Confirmation,
    token: Seq<char>,
    repo_id: Seq<char>,
    version: u64,
    action: Seq<char>,
    targets: Seq<Seq<char>>,
    now: u64,
) -> bool {
    &&& c.live
    &&& c.token@ == token
    &&& c.repo_id@ == repo_id
    &&& c.version == version
    &&& c.action@ == action
    &&& string_views(c.targets@) == targets
    &&& now <= c.expires_at
}

/// A token that is no longer live confirms nothing: once consumed, a
/// confirmation is refused for every request and at every time.
pub proof fn lemma_spent_token_confirms_nothing(
    reg: RepoRegistry,
    token: Seq<char>,
    repo_id: Seq<char>,
    version: u64,
    action: Seq<char>,
    targets: Seq<Seq<char>>,
    now: u64,
)
    requires
        !reg.live(token),
    ensures
        !reg.bound(token, repo_id, version, action, targets, now),
{
    if reg.bound(token, repo_id, version, action, targets, now) {
        let i = choose|i: int|
            0 <= i < reg.confirmations().len() && binds(
                #[trigger] reg.confirmations()[i],
                token,
                repo_id,
                version,
                action,
                targets,
                now,
            );
        assert(reg.confirmations()[i].live && reg.confirmations()[i].token@ == token);
    }
}

/// A token confirms one request only: if it is bound to two requests, they
/// name the same repository, version, action and targets.
pub proof fn lemma_token_names_one_request(
    reg: RepoRegistry,
    token: Seq<char>,
    repo_a: Seq<char>,
    version_a: u64,
    action_a: Seq<char>,
    targets_a: Seq<Seq<char>>,
    now_a: u64,
    repo_b: Seq<char>,
    version_b: u64,
    action_b: Seq<char>,
    targets_b: Seq<Seq<char>>,
    now_b: u64,
)
    requires
        reg.wf(),
        reg.bound(token, repo_a, version_a, action_a, targets_a, now_a),
        reg.bound(token, repo_b, version_b, action_b, targets_b, now_b),
    ensures
        repo_a == repo_b,
        version_a == version_b,
        action_a == action_b,
        targets_a == targets_b,
{
    let i = choose|i: int|
        0 <= i < reg.confirmations().len() && binds(
            #[trigger] reg.confirmations()[i],
            token,
            repo_a,
            version_a,
            action_a,
            targets_a,
            now_a,
        );
    let j = choose|j: int|
        0 <= j < reg.confirmations().len() && binds(
            #[trigger] reg.confirmations()[j],
            token,
            repo_b,
            version_b,
            action_b,
            targets_b,
            now_b,
        );
    if i < j {
        assert(reg.confirmations@[i].token@ != reg.confirmations@[j].token@);
    } else if j < i {
        assert(reg.confirmations@[j].token@ != reg.confirmations@[i].token@);
    }
}

pub fn not_confirmed() -> (e: AppError)
    ensures
        is_error(
            e,
            ErrorCode::INVALID_ARGUMENT,
            "Confirmation is missing, expired or does not match; confirm again"@,
            RecoveryAction::InspectState,
            false,
        ),
{
    bad_request_str("Confirmation is missing, expired or does not match; confirm again")
}

/// A copy of a list of strings.
pub(crate) fn copy_strings(v: &[String]) -> (r: Vec<String>)
    ensures
        r@ == v@,
{
    let mut r: Vec<String> = Vec::new();
    let mut i: usize = 0;
    while i < v.len()
        invariant
            i <= v@.len(),
            r@ == v@.take(i as int),
        decreases v.len() - i,
    {
        r.push(v[i].clone());
        i += 1;
        assert(r@ =~= v@.take(i as int));
    }
    assert(v@.take(v@.len() as int) =~= v@);
    r
}

/// Two target lists are the same, word for word.
pub fn strings_eq(a: &[String], b: &[String]) -> (r: bool)
    ensures
        r == (string_views(a@) == string_views(b@)),
{
    if a.len() != b.len() {
        assert(string_views(a@).len() != string_views(b@).len());
        return false;
    }
    let mut i: usize = 0;
    while i < a.len()
        invariant
            a@.len() == b@.len(),
            i <= a@.len(),
            forall|k: int| 0 <= k < i ==> a@[k]@ == b@[k]@,
        decreases a.len() - i,
    {
        if !str_eq(a[i].as_str(), b[i].as_str()) {
            assert(string_views(a@)[i as int] != string_views(b@)[i as int]);
            return false;
        }
        i += 1;
    }
    assert(string_views(a@) =~= string_views(b@));
    true
}

} // verus!
