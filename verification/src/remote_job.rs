//! A remote job (fetch, pull, push) from registration to its end. The job
//! is registered under its request id (a double submit with the same
//! argument vector gets the job already running), marked running, fed
//! progress, polled for cancellation, and finished with its terminal
//! state, a row in the operation log and, on success, a version bump (and
//! the fetch time for a fetch). The shell runs the child process and
//! reports what happened.

use vstd::prelude::*;
use crate::error::{AppError, ErrorCode};
use crate::jobs::{code_name, JobRegistry, OperationState};
use crate::registry::RepoRegistry;
use crate::sync::{
    argv_debug, job_fingerprint, job_terminal, log_error_code, new_operation, outcome_label, uuid_shape,
    JobOutcome,
};
use crate::text::{str_eq, string_lit, string_views};

verus! {

/// A registered remote job.
pub struct RemoteJob {
    pub operation_id: String,
    pub repo_id: String,
    pub kind: String,
    pub summary: String,
}

/// Register a remote job of `kind` for `argv`. A new request id gets a
/// fresh queued record (`true`: the shell starts the process); a retry with
/// the same argument vector gets the job already registered (`false`:
/// nothing more runs); the same request id with another vector is refused.
pub fn remote_job_register(
    jobs: &mut JobRegistry,
    repo_id: &str,
    request_id: &str,
    kind: &str,
    argv: &Vec<String>,
    summary: &str,
) -> (r: Result<(RemoteJob, bool), AppError>)
    requires
        old(jobs).wf(),
    ensures
        final(jobs).wf(),
        match old(jobs).index_of_request(request_id@) {
            Some(i) => final(jobs).jobs() == old(jobs).jobs() && if old(jobs).jobs()[i].fingerprint@
                == kind@ + ":"@ + argv_debug(string_views(argv@)) {
                r matches Ok((job, fresh)) && !fresh && job.operation_id
                    == old(jobs).jobs()[i].record.operation_id
            } else {
                r matches Err(e) && e.code == ErrorCode::INVALID_ARGUMENT
            },
            None => r matches Ok((job, fresh)) && fresh && uuid_shape(job.operation_id@)
                && final(jobs).jobs().len() == old(jobs).jobs().len() + 1 && final(jobs).jobs().drop_last() == old(jobs).jobs() && ({
                let rec = final(jobs).jobs().last().record;
                &&& rec.operation_id == job.operation_id
                &&& rec.request_id@ == request_id@
                &&& rec.repo_id matches Some(x) && x@ == repo_id@
                &&& rec.kind@ == kind@
                &&& rec.state == OperationState::Queued
            }),
        },
        r matches Ok((job, _)) ==> job.repo_id@ == repo_id@ && job.kind@ == kind@ && job.summary@
            == summary@,
{
    let existed = jobs.has_request(request_id);
    let record = new_operation(repo_id, request_id, kind);
    let fingerprint = job_fingerprint(kind, argv);
    match jobs.job_register(record, fingerprint.as_str()) {
        Err(e) => Err(e),
        Ok(rec) => Ok(
            (
                RemoteJob {
                    operation_id: rec.operation_id,
                    repo_id: string_lit(repo_id),
                    kind: string_lit(kind),
                    summary: string_lit(summary),
                },
                !existed,
            ),
        ),
    }
}

/// What the shell reports about the running job.
pub enum RemoteEvent {
    /// The job is about to run.
    Begin,
    /// Git printed progress: a percentage and the stage name.
    Progress { percent: u32, stage: String },
    /// A poll while the process runs.
    Tick,
    /// The process ended; `now_ms` is the wall-clock time in milliseconds.
    Finished { outcome: JobOutcome, now_ms: u64 },
}

/// What the shell does next.
#[derive(Debug, Clone, Copy, PartialEq, Eq, Structural)]
pub enum RemoteAsk {
    /// Start the process.
    Run,
    /// Keep waiting.
    Continue,
    /// Stop the process; it ends as cancelled.
    Cancel,
    /// The job is over.
    Done,
}

/// The state and error of a job after `job_finish`.
pub open spec fn finished_as(
    before: JobRegistry,
    after: JobRegistry,
    id: Seq<char>,
    state: OperationState,
    error: Option<AppError>,
) -> bool {
    match before.index_of_operation(id) {
        Some(i) => after.jobs().len() == before.jobs().len() && after.jobs()[i].record.state == state
            && after.jobs()[i].record.error == error && forall|k: int|
            0 <= k < before.jobs().len() && k != i ==> #[trigger] after.jobs()[k] == before.jobs()[k],
        None => after.jobs() == before.jobs(),
    }
}

/// One step of a remote job.
pub open spec fn remote_next(
    jobs0: JobRegistry,
    jobs1: JobRegistry,
    reg0: RepoRegistry,
    reg1: RepoRegistry,
    job: RemoteJob,
    ev: RemoteEvent,
    r: RemoteAsk,
) -> bool {
    let id = job.operation_id@;
    match ev {
        RemoteEvent::Begin => r == RemoteAsk::Run && reg1 == reg0 && match jobs0.index_of_operation(id) {
            Some(i) => jobs1.jobs().len() == jobs0.jobs().len() && jobs1.jobs()[i].record.state
                == OperationState::Running && jobs1.jobs()[i].record.stage@ == "contacting remote"@
                && jobs1.jobs()[i].record.progress is None,
            None => jobs1.jobs() == jobs0.jobs(),
        },
        RemoteEvent::Progress { percent, stage } => r == RemoteAsk::Continue && reg1 == reg0
            && match jobs0.index_of_operation(id) {
            Some(i) => jobs1.jobs().len() == jobs0.jobs().len() && jobs1.jobs()[i].record.stage@
                == stage@ && jobs1.jobs()[i].record.progress == Some(percent)
                && jobs1.jobs()[i].record.state == jobs0.jobs()[i].record.state,
            None => jobs1.jobs() == jobs0.jobs(),
        },
        RemoteEvent::Tick => reg1 == reg0 && jobs1 == jobs0 && r == (if jobs0.index_of_operation(id) matches Some(
            i,
        ) && jobs0.jobs()[i].cancel_requested {
            RemoteAsk::Cancel
        } else {
            RemoteAsk::Continue
        }),
        RemoteEvent::Finished { outcome, now_ms } => {
            let (state, error) = match outcome {
                JobOutcome::Succeeded => (OperationState::Succeeded, None::<AppError>),
                JobOutcome::Cancelled => (OperationState::Cancelled, None::<AppError>),
                JobOutcome::Failed(e) => (OperationState::Failed, Some(e)),
            };
            &&& r == RemoteAsk::Done
            &&& finished_as(jobs0, jobs1, id, state, error)
            &&& reg1.confirmations() == reg0.confirmations()
            &&& reg1.log().drop_last() == reg0.log()
            &&& reg1.log().len() == reg0.log().len() + 1
            &&& reg1.log().last().0@ == job.repo_id@
            &&& reg1.log().last().1.kind@ == job.kind@
            &&& reg1.log().last().1.summary@ == job.summary@
            &&& reg1.log().last().1.at == now_ms
            &&& reg1.log().last().1.outcome@ == (if state == OperationState::Succeeded {
                "ok"@
            } else if state == OperationState::Cancelled {
                "cancelled"@
            } else {
                "error"@
            })
            &&& (match error {
                Some(e) => reg1.log().last().1.error_code matches Some(c) && c@ == code_name(e.code),
                None => reg1.log().last().1.error_code is None,
            })
            &&& (state != OperationState::Succeeded ==> reg1.sessions() == reg0.sessions())
            &&& (state == OperationState::Succeeded ==> match reg0.session_index(job.repo_id@) {
                Some(i) => reg1.sessions()[i].version == (if reg0.sessions()[i].version == u64::MAX {
                    u64::MAX
                } else {
                    (reg0.sessions()[i].version + 1) as u64
                }) && reg1.sessions()[i].last_fetch == (if job.kind@ == "fetch"@ {
                    Some((now_ms / 1000) as u64)
                } else {
                    reg0.sessions()[i].last_fetch
                }),
                None => reg1.sessions() == reg0.sessions(),
            })
        },
    }
}

#[verifier::rlimit(40)]
pub fn remote_job_step(
    jobs: &mut JobRegistry,
    registry: &mut RepoRegistry,
    job: &RemoteJob,
    ev: RemoteEvent,
) -> (r: RemoteAsk)
    requires
        old(jobs).wf(),
        old(registry).wf(),
    ensures
        final(jobs).wf(),
        final(registry).wf(),
        remote_next(*old(jobs), *final(jobs), *old(registry), *final(registry), *job, ev, r),
{
    let id = job.operation_id.as_str();
    match ev {
        RemoteEvent::Begin => {
            let ghost j0 = *jobs;
            jobs.job_set_state(id, OperationState::Running);
            proof {
                let j1 = *jobs;
                crate::jobs::lemma_operation_index_in_range(j0, id@);
                match j0.index_of_operation(id@) {
                    Some(i) => {
                        assert(j1.jobs().len() == j0.jobs().len());
                        assert forall|k: int| 0 <= k < j0.jobs().len() implies (
                        #[trigger] j0.jobs()[k]).record.operation_id@ == j1.jobs()[k].record.operation_id@ by {
                            if k != i {
                                assert(j1.jobs()[k] == j0.jobs()[k]);
                            }
                        }
                    },
                    None => {},
                }
                crate::jobs::lemma_same_operation_ids(j0, j1, id@);
            }
            jobs.job_set_progress(id, "contacting remote", None);
            RemoteAsk::Run
        },
        RemoteEvent::Progress { percent, stage } => {
            jobs.job_set_progress(id, stage.as_str(), Some(percent));
            RemoteAsk::Continue
        },
        RemoteEvent::Tick => {
            if jobs.job_cancel_requested(id) {
                RemoteAsk::Cancel
            } else {
                RemoteAsk::Continue
            }
        },
        RemoteEvent::Finished { outcome, now_ms } => {
            let (state, error) = job_terminal(outcome);
            let code = log_error_code(&error);
            jobs.job_finish(id, state, error);
            let label = outcome_label(state);
            registry.log_push(job.repo_id.as_str(), job.kind.as_str(), job.summary.as_str(), label, code, now_ms);
            if state == OperationState::Succeeded {
                let fetched = if str_eq(job.kind.as_str(), "fetch") {
                    Some(now_ms / 1000)
                } else {
                    None
                };
                registry.remote_succeeded(job.repo_id.as_str(), fetched);
            }
            RemoteAsk::Done
        },
    }
}

} // verus!
