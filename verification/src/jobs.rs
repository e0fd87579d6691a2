//! The operation coordinator: an in-memory registry of background jobs.
//! Request ids dedup double submits, `operation_get` reads a record when an
//! event listener missed its terminal update, cancellation only reaches
//! jobs that are still active, and a repository with an active job cannot
//! be closed.

use vstd::prelude::*;
use crate::error::{
    bad_request_str, is_error, AppError, ErrorCode, RecoveryAction, RequestId,
};
use crate::text::{str_eq, string_lit};

verus! {

/// Lifecycle state of one operation. Progress is null when Git gives no
/// total; the UI then renders indeterminate progress.
#[derive(Debug, Clone, Copy, PartialEq, Eq, Structural)]
pub enum OperationState {
    Queued,
    Running,
    Cancelling,
    Succeeded,
    Failed,
    Cancelled,
    Unknown,
}

/// Queued, running and cancelling jobs are active; the rest are terminal.
pub open spec fn is_active(s: OperationState) -> bool {
    s == OperationState::Queued || s == OperationState::Running || s == OperationState::Cancelling
}

pub fn state_is_active(s: OperationState) -> (b: bool)
    ensures
        b == is_active(s),
{
    s == OperationState::Queued || s == OperationState::Running || s == OperationState::Cancelling
}

/// The wire name of an error code (its variant name).
pub open spec fn code_name(code: ErrorCode) -> Seq<char> {
    match code {
        ErrorCode::GIT_NOT_FOUND => "GIT_NOT_FOUND"@,
        ErrorCode::GIT_VERSION_UNSUPPORTED => "GIT_VERSION_UNSUPPORTED"@,
        ErrorCode::NOT_REPOSITORY => "NOT_REPOSITORY"@,
        ErrorCode::BARE_REPOSITORY => "BARE_REPOSITORY"@,
        ErrorCode::REPO_UNAVAILABLE => "REPO_UNAVAILABLE"@,
        ErrorCode::INVALID_ARGUMENT => "INVALID_ARGUMENT"@,
        ErrorCode::PATH_INVALID => "PATH_INVALID"@,
        ErrorCode::REF_INVALID => "REF_INVALID"@,
        ErrorCode::TRUST_REQUIRED => "TRUST_REQUIRED"@,
        ErrorCode::REPO_BUSY => "REPO_BUSY"@,
        ErrorCode::REPO_LOCKED => "REPO_LOCKED"@,
        ErrorCode::STALE_STATE => "STALE_STATE"@,
        ErrorCode::DIRTY_WORKTREE => "DIRTY_WORKTREE"@,
        ErrorCode::EMPTY_INDEX => "EMPTY_INDEX"@,
        ErrorCode::IDENTITY_MISSING => "IDENTITY_MISSING"@,
        ErrorCode::CONFLICTS_PRESENT => "CONFLICTS_PRESENT"@,
        ErrorCode::DIVERGED => "DIVERGED"@,
        ErrorCode::AUTH_REQUIRED => "AUTH_REQUIRED"@,
        ErrorCode::NETWORK_ERROR => "NETWORK_ERROR"@,
        ErrorCode::OFFLINE => "OFFLINE"@,
        ErrorCode::HOOK_FAILED => "HOOK_FAILED"@,
        ErrorCode::SIGNING_FAILED => "SIGNING_FAILED"@,
        ErrorCode::OUTPUT_LIMIT => "OUTPUT_LIMIT"@,
        ErrorCode::UNSUPPORTED => "UNSUPPORTED"@,
        ErrorCode::CANCELLED => "CANCELLED"@,
        ErrorCode::TIMEOUT => "TIMEOUT"@,
        ErrorCode::IO_ERROR => "IO_ERROR"@,
        ErrorCode::GIT_ERROR => "GIT_ERROR"@,
    }
}

pub fn error_code_name(code: ErrorCode) -> (r: &'static str)
    ensures
        r@ == code_name(code),
{
    match code {
        ErrorCode::GIT_NOT_FOUND => "GIT_NOT_FOUND",
        ErrorCode::GIT_VERSION_UNSUPPORTED => "GIT_VERSION_UNSUPPORTED",
        ErrorCode::NOT_REPOSITORY => "NOT_REPOSITORY",
        ErrorCode::BARE_REPOSITORY => "BARE_REPOSITORY",
        ErrorCode::REPO_UNAVAILABLE => "REPO_UNAVAILABLE",
        ErrorCode::INVALID_ARGUMENT => "INVALID_ARGUMENT",
        ErrorCode::PATH_INVALID => "PATH_INVALID",
        ErrorCode::REF_INVALID => "REF_INVALID",
        ErrorCode::TRUST_REQUIRED => "TRUST_REQUIRED",
        ErrorCode::REPO_BUSY => "REPO_BUSY",
        ErrorCode::REPO_LOCKED => "REPO_LOCKED",
        ErrorCode::STALE_STATE => "STALE_STATE",
        ErrorCode::DIRTY_WORKTREE => "DIRTY_WORKTREE",
        ErrorCode::EMPTY_INDEX => "EMPTY_INDEX",
        ErrorCode::IDENTITY_MISSING => "IDENTITY_MISSING",
        ErrorCode::CONFLICTS_PRESENT => "CONFLICTS_PRESENT",
        ErrorCode::DIVERGED => "DIVERGED",
        ErrorCode::AUTH_REQUIRED => "AUTH_REQUIRED",
        ErrorCode::NETWORK_ERROR => "NETWORK_ERROR",
        ErrorCode::OFFLINE => "OFFLINE",
        ErrorCode::HOOK_FAILED => "HOOK_FAILED",
        ErrorCode::SIGNING_FAILED => "SIGNING_FAILED",
        ErrorCode::OUTPUT_LIMIT => "OUTPUT_LIMIT",
        ErrorCode::UNSUPPORTED => "UNSUPPORTED",
        ErrorCode::CANCELLED => "CANCELLED",
        ErrorCode::TIMEOUT => "TIMEOUT",
        ErrorCode::IO_ERROR => "IO_ERROR",
        ErrorCode::GIT_ERROR => "GIT_ERROR",
    }
}

#[derive(Debug, Clone, PartialEq, Eq)]
pub struct OperationRecord {
    pub operation_id: String,
    pub request_id: String,
    pub repo_id: Option<String>,
    pub kind: String,
    pub state: OperationState,
    pub stage: String,
    pub progress: Option<u32>,
    pub error_code: Option<String>,
    /// User-safe structured terminal failure; `error_code` remains for the
    /// operation log and older frontends.
    pub error: Option<AppError>,
}

pub fn copy_string_opt(s: &Option<String>) -> (r: Option<String>)
    ensures
        r == *s,
{
    match s {
        Some(v) => Some(v.clone()),
        None => None,
    }
}

pub fn copy_error(e: &AppError) -> (r: AppError)
    ensures
        r == *e,
{
    AppError {
        code: e.code,
        message: e.message.clone(),
        recovery: e.recovery,
        retryable: e.retryable,
        operation_id: copy_string_opt(&e.operation_id),
        diagnostic_id: copy_string_opt(&e.diagnostic_id),
    }
}

pub fn copy_record(r: &OperationRecord) -> (c: OperationRecord)
    ensures
        c == *r,
{
    OperationRecord {
        operation_id: r.operation_id.clone(),
        request_id: r.request_id.clone(),
        repo_id: copy_string_opt(&r.repo_id),
        kind: r.kind.clone(),
        state: r.state,
        stage: r.stage.clone(),
        progress: r.progress,
        error_code: copy_string_opt(&r.error_code),
        error: match &r.error {
            Some(e) => Some(copy_error(e)),
            None => None,
        },
    }
}

/// One registered job: its record, the payload fingerprint its request id
/// was registered with, and whether cancellation was requested.
pub struct Job {
    pub record: OperationRecord,
    pub fingerprint: String,
    pub cancel_requested: bool,
}

pub struct JobRegistry {
    jobs: Vec<Job>,
}

pub open spec fn job_repo_is(j: Job, repo_id: Seq<char>) -> bool {
    j.record.repo_id matches Some(r) && r@ == repo_id
}

/// What registering `record` with payload fingerprint `fingerprint` does:
/// a known request id with the same fingerprint gives back the job already
/// registered; a known request id with another fingerprint is refused;
/// an unknown one appends a new job, not cancelled, and answers its record.
/// Only the last case changes the registry.
pub open spec fn register_step(
    before: JobRegistry,
    after: JobRegistry,
    record: OperationRecord,
    fingerprint: Seq<char>,
    r: Result<OperationRecord, AppError>,
) -> bool {
    match before.index_of_request(record.request_id@) {
        Some(i) => after.jobs() == before.jobs() && if before.jobs()[i].fingerprint@ == fingerprint {
            r == Ok::<OperationRecord, AppError>(before.jobs()[i].record)
        } else {
            r matches Err(e) && is_error(
                e,
                ErrorCode::INVALID_ARGUMENT,
                "This requestId was already used for a different request"@,
                RecoveryAction::InspectState,
                false,
            )
        },
        None => {
            &&& r == Ok::<OperationRecord, AppError>(record)
            &&& after.jobs().len() == before.jobs().len() + 1
            &&& after.jobs().drop_last() == before.jobs()
            &&& after.jobs().last().record == record
            &&& after.jobs().last().fingerprint@ == fingerprint
            &&& !after.jobs().last().cancel_requested
        },
    }
}

impl JobRegistry {
    /// The registered jobs, oldest first.
    pub closed spec fn jobs(self) -> Seq<Job> {
        self.jobs@
    }

    /// Each request id is registered at most once.
    pub closed spec fn wf(self) -> bool {
        forall|i: int, j: int|
            0 <= i < j < self.jobs@.len() ==> (#[trigger] self.jobs@[i]).record.request_id@
                != (#[trigger] self.jobs@[j]).record.request_id@
    }

    /// Position of the job registered for `request_id`.
    pub open spec fn index_of_request(self, request_id: Seq<char>) -> Option<int> {
        if exists|i: int| 0 <= i < self.jobs().len() && self.jobs()[i].record.request_id@ == request_id {
            Some(
                choose|i: int|
                    0 <= i < self.jobs().len() && self.jobs()[i].record.request_id@ == request_id,
            )
        } else {
            None
        }
    }

    /// Position of the first job with operation id `id`.
    pub open spec fn index_of_operation(self, id: Seq<char>) -> Option<int> {
        if exists|i: int|
            0 <= i < self.jobs().len() && self.jobs()[i].record.operation_id@ == id && forall|k: int|
                0 <= k < i ==> (#[trigger] self.jobs()[k]).record.operation_id@ != id {
            Some(
                choose|i: int|
                    0 <= i < self.jobs().len() && self.jobs()[i].record.operation_id@ == id
                        && forall|k: int|
                        0 <= k < i ==> (#[trigger] self.jobs()[k]).record.operation_id@ != id,
            )
        } else {
            None
        }
    }

    pub open spec fn has_active(self, repo_id: Seq<char>) -> bool {
        exists|i: int|
            0 <= i < self.jobs().len() && job_repo_is(self.jobs()[i], repo_id) && is_active(
                #[trigger] self.jobs()[i].record.state,
            )
    }

    proof fn lemma_request_index(self, i: int)
        requires
            self.wf(),
            0 <= i < self.jobs().len(),
        ensures
            self.index_of_request(self.jobs()[i].record.request_id@) == Some(i),
    {
        let r = self.jobs()[i].record.request_id@;
        let w = choose|k: int| 0 <= k < self.jobs().len() && self.jobs()[k].record.request_id@ == r;
        if w != i {
            if w < i {
                assert(self.jobs@[w].record.request_id@ != self.jobs@[i].record.request_id@);
            } else {
                assert(self.jobs@[i].record.request_id@ != self.jobs@[w].record.request_id@);
            }
        }
    }

    proof fn lemma_operation_index(self, i: int, id: Seq<char>)
        requires
            0 <= i < self.jobs().len(),
            self.jobs()[i].record.operation_id@ == id,
            forall|k: int| 0 <= k < i ==> (#[trigger] self.jobs()[k]).record.operation_id@ != id,
        ensures
            self.index_of_operation(id) == Some(i),
    {
        let w = choose|k: int|
            0 <= k < self.jobs().len() && self.jobs()[k].record.operation_id@ == id && forall|m: int|
                0 <= m < k ==> (#[trigger] self.jobs()[m]).record.operation_id@ != id;
        assert(0 <= w < self.jobs().len() && self.jobs()[w].record.operation_id@ == id);
        if w < i {
            assert(self.jobs()[w].record.operation_id@ != id);
        }
        if i < w {
            assert(self.jobs()[i].record.operation_id@ != id);
        }
    }

    pub fn new() -> (r: Self)
        ensures
            r.wf(),
            r.jobs() == Seq::<Job>::empty(),
    {
        JobRegistry { jobs: Vec::new() }
    }

    fn find_request(&self, request_id: &str) -> (r: Option<usize>)
        requires
            self.wf(),
        ensures
            match r {
                Some(i) => i < self.jobs().len() && self.index_of_request(request_id@) == Some(
                    i as int,
                ),
                None => self.index_of_request(request_id@) is None,
            },
    {
        let mut i: usize = 0;
        while i < self.jobs.len()
            invariant
                self.wf(),
                i <= self.jobs@.len(),
                forall|k: int| 0 <= k < i ==> (#[trigger] self.jobs@[k]).record.request_id@ != request_id@,
            decreases self.jobs.len() - i,
        {
            if str_eq(self.jobs[i].record.request_id.as_str(), request_id) {
                proof {
                    self.lemma_request_index(i as int);
                }
                return Some(i);
            }
            i += 1;
        }
        None
    }

    fn find_operation(&self, id: &str) -> (r: Option<usize>)
        ensures
            match r {
                Some(i) => i < self.jobs().len() && self.index_of_operation(id@) == Some(i as int),
                None => self.index_of_operation(id@) is None,
            },
    {
        let mut i: usize = 0;
        while i < self.jobs.len()
            invariant
                i <= self.jobs@.len(),
                forall|k: int| 0 <= k < i ==> (#[trigger] self.jobs@[k]).record.operation_id@ != id@,
            decreases self.jobs.len() - i,
        {
            if str_eq(self.jobs[i].record.operation_id.as_str(), id) {
                proof {
                    self.lemma_operation_index(i as int, id@);
                }
                return Some(i);
            }
            i += 1;
        }
        None
    }

    /// Register a job for its request id. A retry of the same request with
    /// the same payload fingerprint returns the job already registered and
    /// changes nothing; the same request id with another payload is a
    /// caller bug and is refused.
    pub fn job_register(&mut self, record: OperationRecord, fingerprint: &str) -> (r: Result<
        OperationRecord,
        AppError,
    >)
        requires
            old(self).wf(),
        ensures
            final(self).wf(),
            register_step(*old(self), *final(self), record, fingerprint@, r),
    {
        match self.find_request(record.request_id.as_str()) {
            Some(i) => {
                if str_eq(self.jobs[i].fingerprint.as_str(), fingerprint) {
                    Ok(copy_record(&self.jobs[i].record))
                } else {
                    Err(bad_request_str("This requestId was already used for a different request"))
                }
            },
            None => {
                let ghost before = self.jobs@;
                let kept = copy_record(&record);
                self.jobs.push(Job { record, fingerprint: string_lit(fingerprint), cancel_requested: false });
                proof {
                    assert forall|i: int, j: int|
                        0 <= i < j < self.jobs@.len() implies (#[trigger] self.jobs@[i]).record.request_id@
                        != (#[trigger] self.jobs@[j]).record.request_id@ by {
                        if j == before.len() {
                            assert(self.jobs@[i] == before[i]);
                        } else {
                            assert(self.jobs@[i] == before[i] && self.jobs@[j] == before[j]);
                        }
                    }
                    assert(self.jobs@.drop_last() =~= before);
                }
                Ok(kept)
            },
        }
    }

    /// Whether a job is registered for `request_id`.
    pub fn has_request(&self, request_id: &str) -> (r: bool)
        requires
            self.wf(),
        ensures
            r == self.index_of_request(request_id@) is Some,
    {
        self.find_request(request_id).is_some()
    }

    /// The record of operation `id`, if it is registered.
    pub fn job_get(&self, id: &str) -> (r: Option<&OperationRecord>)
        ensures
            match self.index_of_operation(id@) {
                Some(i) => r == Some(&self.jobs()[i].record),
                None => r is None,
            },
    {
        match self.find_operation(id) {
            Some(i) => Some(&self.jobs[i].record),
            None => None,
        }
    }

    /// Whether cancellation of operation `id` was requested.
    pub fn job_cancel_requested(&self, id: &str) -> (r: bool)
        ensures
            r == (self.index_of_operation(id@) matches Some(i) && self.jobs()[i].cancel_requested),
    {
        match self.find_operation(id) {
            Some(i) => self.jobs[i].cancel_requested,
            None => false,
        }
    }

    pub fn has_active_operation(&self, repo_id: &str) -> (r: bool)
        ensures
            r == self.has_active(repo_id@),
    {
        let mut i: usize = 0;
        while i < self.jobs.len()
            invariant
                i <= self.jobs@.len(),
                forall|k: int|
                    0 <= k < i ==> !(job_repo_is(self.jobs@[k], repo_id@) && is_active(
                        #[trigger] self.jobs@[k].record.state,
                    )),
            decreases self.jobs.len() - i,
        {
            let active = match &self.jobs[i].record.repo_id {
                Some(r) => str_eq(r.as_str(), repo_id) && state_is_active(self.jobs[i].record.state),
                None => false,
            };
            if active {
                assert(job_repo_is(self.jobs@[i as int], repo_id@));
                return true;
            }
            i += 1;
        }
        false
    }

    /// Apply `f` to the record of operation `id`; other jobs are untouched.
    fn update_record(&mut self, i: usize, rec: OperationRecord, cancel: bool)
        requires
            old(self).wf(),
            i < old(self).jobs().len(),
            rec.request_id@ == old(self).jobs()[i as int].record.request_id@,
        ensures
            final(self).wf(),
            final(self).jobs() == old(self).jobs().update(
                i as int,
                Job {
                    record: rec,
                    fingerprint: old(self).jobs()[i as int].fingerprint,
                    cancel_requested: cancel,
                },
            ),
    {
        let ghost before = self.jobs@;
        let fingerprint = self.jobs[i].fingerprint.clone();
        self.jobs.set(i, Job { record: rec, fingerprint, cancel_requested: cancel });
        proof {
            assert forall|a: int, b: int|
                0 <= a < b < self.jobs@.len() implies (#[trigger] self.jobs@[a]).record.request_id@
                != (#[trigger] self.jobs@[b]).record.request_id@ by {
                assert(self.jobs@[a].record.request_id@ == before[a].record.request_id@);
                assert(self.jobs@[b].record.request_id@ == before[b].record.request_id@);
            }
        }
    }

    /// Set the state of operation `id`; unknown ids change nothing.
    #[verifier::rlimit(40)]
    pub fn job_set_state(&mut self, id: &str, state: OperationState)
        requires
            old(self).wf(),
        ensures
            final(self).wf(),
            match old(self).index_of_operation(id@) {
                Some(i) => final(self).jobs() == old(self).jobs().update(
                    i,
                    Job {
                        record: OperationRecord { state, ..old(self).jobs()[i].record },
                        ..old(self).jobs()[i]
                    },
                ),
                None => final(self).jobs() == old(self).jobs(),
            },
    {
        match self.find_operation(id) {
            Some(i) => {
                let mut rec = copy_record(&self.jobs[i].record);
                rec.state = state;
                let cancel = self.jobs[i].cancel_requested;
                assert(rec == OperationRecord { state, ..old(self).jobs()[i as int].record });
                self.update_record(i, rec, cancel);
            },
            None => {},
        }
    }

    /// Record the current stage and progress of operation `id`.
    pub fn job_set_progress(&mut self, id: &str, stage: &str, progress: Option<u32>)
        requires
            old(self).wf(),
        ensures
            final(self).wf(),
            match old(self).index_of_operation(id@) {
                Some(i) => final(self).jobs().len() == old(self).jobs().len()
                    && final(self).jobs()[i].record.stage@ == stage@
                    && final(self).jobs()[i].record.progress == progress
                    && final(self).jobs()[i].record.state == old(self).jobs()[i].record.state
                    && final(self).jobs()[i].record.operation_id == old(self).jobs()[i].record.operation_id
                    && forall|k: int|
                    0 <= k < old(self).jobs().len() && k != i ==> #[trigger] final(self).jobs()[k]
                        == old(self).jobs()[k],
                None => final(self).jobs() == old(self).jobs(),
            },
    {
        match self.find_operation(id) {
            Some(i) => {
                let mut rec = copy_record(&self.jobs[i].record);
                rec.stage = string_lit(stage);
                rec.progress = progress;
                let cancel = self.jobs[i].cancel_requested;
                self.update_record(i, rec, cancel);
            },
            None => {},
        }
    }

    /// Record the terminal state of operation `id`, its error and the
    /// error's code name.
    pub fn job_finish(&mut self, id: &str, state: OperationState, error: Option<AppError>)
        requires
            old(self).wf(),
        ensures
            final(self).wf(),
            match old(self).index_of_operation(id@) {
                Some(i) => final(self).jobs().len() == old(self).jobs().len()
                    && final(self).jobs()[i].record.state == state
                    && final(self).jobs()[i].record.error == error
                    && match error {
                        Some(e) => final(self).jobs()[i].record.error_code matches Some(c) && c@
                            == code_name(e.code),
                        None => final(self).jobs()[i].record.error_code is None,
                    }
                    && final(self).jobs()[i].record.operation_id == old(self).jobs()[i].record.operation_id
                    && forall|k: int|
                    0 <= k < old(self).jobs().len() && k != i ==> #[trigger] final(self).jobs()[k]
                        == old(self).jobs()[k],
                None => final(self).jobs() == old(self).jobs(),
            },
    {
        match self.find_operation(id) {
            Some(i) => {
                let mut rec = copy_record(&self.jobs[i].record);
                rec.state = state;
                rec.error_code = match &error {
                    Some(e) => Some(string_lit(error_code_name(e.code))),
                    None => None,
                };
                rec.error = error;
                let cancel = self.jobs[i].cancel_requested;
                self.update_record(i, rec, cancel);
            },
            None => {},
        }
    }

    /// Ask operation `id` to stop. Only active jobs can be cancelled: the
    /// request is recorded, the state becomes `Cancelling`, and the answer
    /// is `true`. Unknown or terminal operations answer `false` and nothing
    /// changes.
    pub fn job_request_cancel(&mut self, id: &str) -> (r: bool)
        requires
            old(self).wf(),
        ensures
            final(self).wf(),
            match old(self).index_of_operation(id@) {
                Some(i) => if is_active(old(self).jobs()[i].record.state) {
                    r && final(self).jobs() == old(self).jobs().update(
                        i,
                        Job {
                            record: OperationRecord {
                                state: OperationState::Cancelling,
                                ..old(self).jobs()[i].record
                            },
                            cancel_requested: true,
                            ..old(self).jobs()[i]
                        },
                    )
                } else {
                    !r && final(self).jobs() == old(self).jobs()
                },
                None => !r && final(self).jobs() == old(self).jobs(),
            },
    {
        match self.find_operation(id) {
            Some(i) => {
                if !state_is_active(self.jobs[i].record.state) {
                    return false;
                }
                let mut rec = copy_record(&self.jobs[i].record);
                rec.state = OperationState::Cancelling;
                assert(rec == OperationRecord {
                    state: OperationState::Cancelling,
                    ..old(self).jobs()[i as int].record
                });
                self.update_record(i, rec, true);
                true
            },
            None => false,
        }
    }
}

/// The reply of `operation_get`: the registered record, or an error that
/// points at a closed repository.
pub fn core_operation_get(registry: &JobRegistry, operation_id: &str) -> (r: Result<
    OperationRecord,
    AppError,
>)
    ensures
        match registry.index_of_operation(operation_id@) {
            Some(i) => r == Ok::<OperationRecord, AppError>(registry.jobs()[i].record),
            None => r matches Err(e) && is_error(
                e,
                ErrorCode::INVALID_ARGUMENT,
                "Unknown operation; it may belong to a closed repository"@,
                RecoveryAction::InspectState,
                false,
            ),
        },
{
    match registry.job_get(operation_id) {
        Some(rec) => Ok(copy_record(rec)),
        None => Err(bad_request_str("Unknown operation; it may belong to a closed repository")),
    }
}

/// The reply of `operation_cancel`: whether a cancellation was requested.
/// Unknown or terminal operations report `false`, never an error.
pub fn core_operation_cancel(registry: &mut JobRegistry, operation_id: &str) -> (r: Result<
    bool,
    AppError,
>)
    requires
        old(registry).wf(),
    ensures
        final(registry).wf(),
        r matches Ok(b) && b == (old(registry).index_of_operation(operation_id@) matches Some(i)
            && is_active(old(registry).jobs()[i].record.state)),
{
    Ok(registry.job_request_cancel(operation_id))
}

/// The operation index names a job with that operation id.
pub proof fn lemma_operation_index_in_range(a: JobRegistry, id: Seq<char>)
    ensures
        a.index_of_operation(id) matches Some(i) ==> 0 <= i < a.jobs().len()
            && a.jobs()[i].record.operation_id@ == id,
{
}

/// The operation index depends on the operation ids alone.
pub proof fn lemma_same_operation_ids(a: JobRegistry, b: JobRegistry, id: Seq<char>)
    requires
        a.jobs().len() == b.jobs().len(),
        forall|k: int|
            0 <= k < a.jobs().len() ==> (#[trigger] a.jobs()[k]).record.operation_id@
                == b.jobs()[k].record.operation_id@,
    ensures
        a.index_of_operation(id) == b.index_of_operation(id),
{
    match a.index_of_operation(id) {
        Some(i) => {
            assert(b.jobs()[i].record.operation_id@ == id);
            assert forall|k: int| 0 <= k < i implies (#[trigger] b.jobs()[k]).record.operation_id@ != id by {
                assert(a.jobs()[k].record.operation_id@ != id);
            }
            b.lemma_operation_index(i, id);
        },
        None => {
            match b.index_of_operation(id) {
                Some(j) => {
                    assert(b.jobs()[j].record.operation_id@ == id);
                    assert forall|k: int| 0 <= k < j implies (#[trigger] a.jobs()[k]).record.operation_id@ != id by {
                        assert(b.jobs()[k].record.operation_id@ != id);
                    }
                    a.lemma_operation_index(j, id);
                },
                None => {},
            }
        },
    }
}

/// A double submit is harmless: retrying a registration with the same
/// request id and the same payload changes nothing and answers exactly
/// what the first registration answered, whether that was the job or a
/// refusal.
pub proof fn lemma_retry_is_idempotent(
    a: JobRegistry,
    b: JobRegistry,
    c: JobRegistry,
    record: OperationRecord,
    fingerprint: Seq<char>,
    r1: Result<OperationRecord, AppError>,
    r2: Result<OperationRecord, AppError>,
)
    requires
        a.wf(),
        b.wf(),
        register_step(a, b, record, fingerprint, r1),
        register_step(b, c, record, fingerprint, r2),
    ensures
        c.jobs() == b.jobs(),
        r1 is Ok ==> r2 == r1,
        r1 is Err ==> r2 is Err,
{
    match a.index_of_request(record.request_id@) {
        Some(i) => {
            assert(b.index_of_request(record.request_id@) == a.index_of_request(record.request_id@));
        },
        None => {
            let n = a.jobs().len() as int;
            assert(b.jobs()[n] == b.jobs().last());
            b.lemma_request_index(n);
        },
    }
}

/// A request id is bound to the payload it was first registered with: once
/// a registration succeeded, the same request id with another payload is
/// refused as a caller bug, and the registry stays as it was.
pub proof fn lemma_payload_drift_is_refused(
    a: JobRegistry,
    b: JobRegistry,
    c: JobRegistry,
    record: OperationRecord,
    again: OperationRecord,
    fingerprint: Seq<char>,
    other: Seq<char>,
    r1: Result<OperationRecord, AppError>,
    r2: Result<OperationRecord, AppError>,
)
    requires
        a.wf(),
        b.wf(),
        register_step(a, b, record, fingerprint, r1),
        r1 is Ok,
        again.request_id@ == record.request_id@,
        other != fingerprint,
        register_step(b, c, again, other, r2),
    ensures
        c.jobs() == b.jobs(),
        r2 matches Err(e) && e.code == ErrorCode::INVALID_ARGUMENT,
{
    match a.index_of_request(record.request_id@) {
        Some(i) => {
            assert(b.index_of_request(record.request_id@) == a.index_of_request(record.request_id@));
        },
        None => {
            let n = a.jobs().len() as int;
            assert(b.jobs()[n] == b.jobs().last());
            b.lemma_request_index(n);
        },
    }
}

/// A job that registration hands back in an active state keeps its
/// repository busy, so the repository cannot be closed under it.
pub proof fn lemma_registered_job_blocks_close(
    a: JobRegistry,
    b: JobRegistry,
    record: OperationRecord,
    fingerprint: Seq<char>,
    r: Result<OperationRecord, AppError>,
    repo_id: Seq<char>,
)
    requires
        a.wf(),
        register_step(a, b, record, fingerprint, r),
        r matches Ok(x) && x.repo_id matches Some(id) && id@ == repo_id && is_active(x.state),
    ensures
        b.has_active(repo_id),
{
    match a.index_of_request(record.request_id@) {
        Some(i) => {
            assert(job_repo_is(b.jobs()[i], repo_id));
            assert(is_active(b.jobs()[i].record.state));
        },
        None => {
            let n = a.jobs().len() as int;
            assert(b.jobs()[n] == b.jobs().last());
            assert(job_repo_is(b.jobs()[n], repo_id));
            assert(is_active(b.jobs()[n].record.state));
        },
    }
}

/// When the last active job of a repository reaches a terminal state, the
/// repository is free again and can be closed.
pub proof fn lemma_terminal_state_frees_repository(
    a: JobRegistry,
    b: JobRegistry,
    i: int,
    state: OperationState,
    repo_id: Seq<char>,
)
    requires
        0 <= i < a.jobs().len(),
        !is_active(state),
        b.jobs() == a.jobs().update(
            i,
            Job { record: OperationRecord { state, ..a.jobs()[i].record }, ..a.jobs()[i] },
        ),
        forall|k: int|
            0 <= k < a.jobs().len() && k != i ==> !(job_repo_is(a.jobs()[k], repo_id) && is_active(
                #[trigger] a.jobs()[k].record.state,
            )),
    ensures
        !b.has_active(repo_id),
{
    assert forall|k: int| 0 <= k < b.jobs().len() implies !(job_repo_is(b.jobs()[k], repo_id) && is_active(
        #[trigger] b.jobs()[k].record.state,
    )) by {
        if k != i {
            assert(b.jobs()[k] == a.jobs()[k]);
        }
    }
}

} // verus!
