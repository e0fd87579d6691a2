use octopus::error::{AppError, ErrorCode, RecoveryAction};
use octopus::jobs::{core_operation_cancel, core_operation_get, JobRegistry, OperationRecord, OperationState};

fn test_record(request_id: &str, repo_id: Option<String>) -> OperationRecord {
    OperationRecord {
        operation_id: format!("op-{request_id}"),
        request_id: request_id.to_string(),
        repo_id,
        kind: "test.mutation".to_string(),
        state: OperationState::Running,
        stage: "working".to_string(),
        progress: None,
        error_code: None,
        error: None,
    }
}

#[test]
fn double_submit_dedups_same_payload_and_rejects_drift() {
    let mut registry = JobRegistry::new();
    let first = registry
        .job_register(test_record("req-1", None), "payload-a")
        .expect("register");
    // Identical retry returns the same operation id.
    let retry = registry
        .job_register(test_record("req-1", None), "payload-a")
        .expect("dedup");
    assert_eq!(first.operation_id, retry.operation_id);
    // Same request id, different payload is a caller bug: reject.
    let drift = registry.job_register(test_record("req-1", None), "payload-b");
    assert!(matches!(
        drift,
        Err(ref e) if e.code == ErrorCode::INVALID_ARGUMENT
    ));
}

#[test]
fn close_is_blocked_while_a_job_runs_and_frees_after() {
    let mut registry = JobRegistry::new();
    let repo_id = "repo-busy".to_string();
    registry
        .job_register(test_record("req-busy", Some(repo_id.clone())), "p")
        .expect("register");
    assert!(registry.has_active_operation(&repo_id));
    registry.job_set_state("op-req-busy", OperationState::Succeeded);
    assert!(!registry.has_active_operation(&repo_id));
}

#[test]
fn operation_get_falls_back_for_missed_events_and_rejects_unknown() {
    let mut registry = JobRegistry::new();
    registry
        .job_register(test_record("req-lookup", None), "p")
        .expect("register");
    // Listener-race fallback: query by operation id returns the record.
    let found = core_operation_get(&registry, "op-req-lookup").expect("found");
    assert_eq!(found.request_id, "req-lookup");
    assert_eq!(found.state, OperationState::Running);
    let missing = core_operation_get(&registry, "op-nope");
    assert!(matches!(
        missing,
        Err(ref e) if e.code == ErrorCode::INVALID_ARGUMENT
    ));
    // Terminal records cannot be cancelled; running ones request it.
    // Unknown ids report Ok(false): nothing to kill, still not an error.
    assert!(core_operation_cancel(&mut registry, "op-req-lookup").expect("cancel"));
    assert!(!core_operation_cancel(&mut registry, "op-nope-2").expect("unknown"));
    registry.job_set_state("op-req-lookup", OperationState::Succeeded);
    assert!(!core_operation_cancel(&mut registry, "op-req-lookup").expect("no-op"));
}

#[test]
fn cancel_marks_the_job_and_a_terminal_job_frees_its_repository() {
    let mut registry = JobRegistry::new();
    registry
        .job_register(test_record("req-c", Some("repo-c".to_string())), "fp")
        .expect("register");
    assert!(!registry.job_cancel_requested("op-req-c"));
    assert!(registry.job_request_cancel("op-req-c"));
    assert!(registry.job_cancel_requested("op-req-c"));
    assert_eq!(
        registry.job_get("op-req-c").map(|r| r.state),
        Some(OperationState::Cancelling)
    );
    // Still active while cancelling.
    assert!(registry.has_active_operation("repo-c"));
    assert!(!registry.has_active_operation("repo-other"));
    registry.job_finish(
        "op-req-c",
        OperationState::Cancelled,
        Some(AppError::new(
            ErrorCode::CANCELLED,
            "Cancelled".to_string(),
            RecoveryAction::NoAction,
            false,
        )),
    );
    let rec = registry.job_get("op-req-c").expect("kept");
    assert_eq!(rec.state, OperationState::Cancelled);
    assert_eq!(rec.error_code.as_deref(), Some("CANCELLED"));
    assert!(!registry.has_active_operation("repo-c"));
}

#[test]
fn progress_updates_stage_and_percentage_of_a_running_job() {
    let mut registry = JobRegistry::new();
    registry
        .job_register(test_record("req-p", None), "fp")
        .expect("register");
    registry.job_set_progress("op-req-p", "receiving", Some(42));
    let rec = registry.job_get("op-req-p").expect("kept");
    assert_eq!(rec.stage, "receiving");
    assert_eq!(rec.progress, Some(42));
    assert!(registry.job_get("op-unknown").is_none());
}
