use octopus::error::{AppError, ErrorCode, RecoveryAction};
use octopus::jobs::OperationState;
use octopus::sync::{
    buffer_stderr_line, check_pull_clean, credential_query, epoch_to_iso8601, fetch_plan,
    job_fingerprint, job_terminal, log_error_code, network_error, new_operation, outcome_label,
    parse_credential, progress_stage, pull_plan, push_plan, push_remote_choice, JobOutcome,
    NetworkFault, PushRemote,
};

#[test]
fn timestamps_are_iso8601_utc() {
    assert_eq!(epoch_to_iso8601(0), "1970-01-01T00:00:00Z");
    assert_eq!(epoch_to_iso8601(951_782_400), "2000-02-29T00:00:00Z");
    assert_eq!(epoch_to_iso8601(1_790_071_200), "2026-09-22T10:00:00Z");
    assert_eq!(epoch_to_iso8601(86_399), "1970-01-01T23:59:59Z");
    assert_eq!(epoch_to_iso8601(4_107_542_400), "2100-03-01T00:00:00Z");
}

#[test]
fn operations_get_uuid_ids_and_start_queued() {
    let op = new_operation("repo-1", "req-9", "remote.fetch");
    assert_eq!(op.operation_id.len(), 36);
    for (i, c) in op.operation_id.chars().enumerate() {
        if [8, 13, 18, 23].contains(&i) {
            assert_eq!(c, '-');
        } else {
            assert!(c.is_ascii_hexdigit() && !c.is_ascii_uppercase());
        }
    }
    assert_eq!(op.operation_id.as_bytes()[14], b'4');
    assert!(b"89ab".contains(&op.operation_id.as_bytes()[19]));
    assert_ne!(op.operation_id, new_operation("repo-1", "req-9", "remote.fetch").operation_id);
    assert_eq!(op.request_id, "req-9");
    assert_eq!(op.repo_id.as_deref(), Some("repo-1"));
    assert_eq!(op.state, OperationState::Queued);
    assert_eq!(op.stage, "queued");
}

#[test]
fn job_fingerprints_repeat_for_identical_submits() {
    let argv = vec!["fetch".to_string(), "origin".to_string()];
    assert_eq!(job_fingerprint("remote.fetch", &argv), "remote.fetch:[\"fetch\", \"origin\"]");
    assert_ne!(
        job_fingerprint("remote.fetch", &argv),
        job_fingerprint("remote.fetch", &vec!["fetch".to_string()])
    );
}

#[test]
fn outcomes_map_to_terminal_states_and_log_words() {
    assert_eq!(job_terminal(JobOutcome::Succeeded), (OperationState::Succeeded, None));
    assert_eq!(job_terminal(JobOutcome::Cancelled), (OperationState::Cancelled, None));
    let e = network_error(NetworkFault::Offline);
    assert_eq!(e.code, ErrorCode::OFFLINE);
    assert_eq!(job_terminal(JobOutcome::Failed(e.clone())), (OperationState::Failed, Some(e.clone())));
    assert_eq!(outcome_label(OperationState::Succeeded), "ok");
    assert_eq!(outcome_label(OperationState::Cancelled), "cancelled");
    assert_eq!(outcome_label(OperationState::Failed), "error");
    assert_eq!(log_error_code(&Some(e)).as_deref(), Some("OFFLINE"));
    assert_eq!(log_error_code(&None), None);
    assert_eq!(network_error(NetworkFault::Auth).recovery, RecoveryAction::Authenticate);
    assert_eq!(network_error(NetworkFault::Other).code, ErrorCode::GIT_ERROR);
}

#[test]
fn progress_lines_name_their_stage() {
    assert_eq!(progress_stage("Receiving objects:  42% (21/50)"), "receiving objects");
    assert_eq!(progress_stage("  Counting  "), "counting");
    let mut buf = String::new();
    buffer_stderr_line(&mut buf, "fatal: x");
    assert_eq!(buf, "fatal: x\n");
    let mut full = "y".repeat(4000);
    buffer_stderr_line(&mut full, "dropped");
    assert_eq!(full.len(), 4000);
}

#[test]
fn remote_plans_use_progress_and_the_bitbucket_override() {
    let (argv, summary) = fetch_plan("origin", "https://github.com/a/b.git");
    assert_eq!(argv, vec!["fetch", "--progress", "origin"]);
    assert_eq!(summary, "fetch origin (https://github.com/a/b.git)");
    let (argv, _) = pull_plan("origin", "https://bitbucket.org/a/b.git");
    assert_eq!(
        argv,
        vec![
            "-c",
            "credential.username=x-bitbucket-api-token-auth",
            "pull",
            "--ff-only",
            "--progress"
        ]
    );
    let (argv, summary) = push_plan(
        "origin",
        "feat",
        "https://github.com/a/b.git",
        "0123456789abcdef",
        false,
        true,
    );
    assert_eq!(argv, vec!["push", "--progress", "--set-upstream", "origin", "HEAD:feat"]);
    assert_eq!(summary, "push -u origin HEAD:feat (https://github.com/a/b.git 0123456789ab)");
    let (argv, summary) = push_plan("origin", "feat", "u", "abc", true, true);
    assert_eq!(argv, vec!["push", "--progress"]);
    assert_eq!(summary, "push origin (u abc)");
    assert!(check_pull_clean(0, 0, 0).is_ok());
    assert_eq!(check_pull_clean(0, 1, 0).unwrap_err().code, ErrorCode::DIRTY_WORKTREE);
}

#[test]
fn push_remote_falls_back_in_order() {
    assert_eq!(
        push_remote_choice(Some("mine"), Some("up"), Some("br"), false).unwrap(),
        PushRemote::Named("mine".to_string())
    );
    assert!(push_remote_choice(Some("bad name"), None, None, false).is_err());
    assert_eq!(
        push_remote_choice(None, Some("up"), Some("br"), false).unwrap(),
        PushRemote::Named("br".to_string())
    );
    assert_eq!(
        push_remote_choice(None, Some("up"), None, false).unwrap(),
        PushRemote::Named("up".to_string())
    );
    assert_eq!(push_remote_choice(None, None, None, true).unwrap(), PushRemote::Default);
    assert_eq!(
        push_remote_choice(None, None, None, false).unwrap_err().code,
        ErrorCode::INVALID_ARGUMENT
    );
}

#[test]
fn saved_credentials_are_read_from_the_last_lines() {
    assert_eq!(credential_query("github.com"), "protocol=https\nhost=github.com\n\n");
    let (user, pass) = parse_credential(
        true,
        "protocol=https\nhost=github.com\nusername=old\nusername= ada \npassword=tok\n",
    )
    .unwrap();
    assert_eq!(user, "ada");
    assert_eq!(pass, "tok");
    let missing: AppError = parse_credential(true, "username=ada\n").unwrap_err();
    assert_eq!(missing.code, ErrorCode::AUTH_REQUIRED);
    assert!(parse_credential(false, "password=tok\n").is_err());
    assert!(parse_credential(true, "password=a\u{7}b\n").is_err());
}

#[test]
fn iso_texts_sort_as_their_timestamps() {
    let stamps = [0u64, 59, 60, 3_599, 86_399, 86_400, 946_684_799, 946_684_800, 253_402_300_799];
    for pair in stamps.windows(2) {
        assert!(epoch_to_iso8601(pair[0]) < epoch_to_iso8601(pair[1]));
    }
    assert_eq!(epoch_to_iso8601(253_402_300_799), "9999-12-31T23:59:59Z");
}
