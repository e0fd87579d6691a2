use octopus::commit::{
    check_commit_message, check_index_nonempty, check_no_conflicts, commit_error,
    commit_message_text, CommitFailure,
};
use octopus::domain::TrustState;
use octopus::error::{check_request_id, envelope, ApiResult, ErrorCode, RecoveryAction};
use octopus::gate::{
    check_clean, check_commit_kind, check_no_merge_or_rebase, check_oid, check_write_context,
    head_branch_result, head_oid_result, require_head_oid, SessionInfo,
};
use octopus::stage::{
    argv_with_paths, collect_mutation_paths, discard_file_summary, discard_route,
    index_mutation_words, DiscardRoute,
};

fn session(trust: TrustState, version: u64) -> SessionInfo {
    SessionInfo { trust, version, object_format: "sha1".to_string() }
}

#[test]
fn write_context_needs_an_open_trusted_current_session() {
    assert!(check_write_context(Some(&session(TrustState::Trusted, 3)), 3, "commit").is_ok());
    let e = check_write_context(Some(&session(TrustState::ReadOnly, 3)), 3, "commit").unwrap_err();
    assert_eq!(e.code, ErrorCode::TRUST_REQUIRED);
    assert_eq!(e.message, "Trust this repository to commit");
    assert_eq!(
        check_write_context(Some(&session(TrustState::Trusted, 3)), 2, "commit").unwrap_err().code,
        ErrorCode::STALE_STATE
    );
    assert_eq!(
        check_write_context(None, 0, "commit").unwrap_err().code,
        ErrorCode::REPO_UNAVAILABLE
    );
}

#[test]
fn object_ids_follow_the_object_format() {
    assert!(check_oid("sha1", &"a".repeat(40)).is_ok());
    assert!(check_oid("sha1", &"a".repeat(64)).is_err());
    assert!(check_oid("sha256", &"0".repeat(64)).is_ok());
    assert!(check_oid("sha1", &"g".repeat(40)).is_err());
    assert!(check_commit_kind("commit\n").is_ok());
    assert!(check_commit_kind("tree\n").is_err());
    assert_eq!(head_oid_result(true, "abc\n").unwrap().iter().collect::<String>(), "abc");
    assert!(head_oid_result(false, "").is_err());
    assert!(head_branch_result(false, "").is_err());
    assert!(require_head_oid("abc", "abc", "reword").is_ok());
    assert!(require_head_oid("abc", "abd", "reword").is_err());
}

#[test]
fn busy_and_dirty_repositories_refuse() {
    assert!(check_no_merge_or_rebase(false, false).is_ok());
    assert_eq!(
        check_no_merge_or_rebase(true, true).unwrap_err().recovery,
        RecoveryAction::ResolveConflict
    );
    assert_eq!(
        check_no_merge_or_rebase(false, true).unwrap_err().recovery,
        RecoveryAction::InspectState
    );
    assert!(check_clean(0, 0, 0, "Rebase").is_ok());
    assert_eq!(
        check_clean(1, 0, 0, "Rebase").unwrap_err().message,
        "Rebase needs a clean worktree; stash or commit first"
    );
}

#[test]
fn commit_messages_and_failures() {
    assert!(check_commit_message("  subject ", "").is_ok());
    assert!(check_commit_message("   ", "").is_err());
    assert!(check_commit_message(&"s".repeat(501), "").is_err());
    assert!(check_commit_message("s", &"b".repeat(65_537)).is_err());
    assert_eq!(commit_message_text(" s ", " b "), "s\n\nb\n");
    assert!(check_no_conflicts(true).is_err());
    assert_eq!(check_index_nonempty(true).unwrap_err().code, ErrorCode::EMPTY_INDEX);
    assert_eq!(
        commit_error(&CommitFailure::GitFailed("error: GPG failed to sign".to_string())).code,
        ErrorCode::SIGNING_FAILED
    );
    assert_eq!(
        commit_error(&CommitFailure::GitFailed("pre-commit hook exited".to_string())).code,
        ErrorCode::HOOK_FAILED
    );
    assert_eq!(commit_error(&CommitFailure::TimedOut).code, ErrorCode::TIMEOUT);
    assert_eq!(commit_error(&CommitFailure::OutputLimit).code, ErrorCode::OUTPUT_LIMIT);
}

#[test]
fn envelopes_carry_the_request_id() {
    assert!(check_request_id("r").is_ok());
    assert!(check_request_id("").is_err());
    assert!(check_request_id(&"r".repeat(129)).is_err());
    match envelope::<u8>(Ok(7), "req".to_string()) {
        ApiResult::Success { ok, data, request_id } => {
            assert!(ok);
            assert_eq!(data, 7);
            assert_eq!(request_id, "req");
        }
        ApiResult::Failure { .. } => panic!("expected success"),
    }
    match envelope::<u8>(Err(octopus::error::stale_state()), "req".to_string()) {
        ApiResult::Failure { ok, error, .. } => {
            assert!(!ok);
            assert_eq!(error.code, ErrorCode::STALE_STATE);
        }
        ApiResult::Success { .. } => panic!("expected failure"),
    }
}

#[test]
fn index_mutations_use_literal_pathspecs() {
    let argv = argv_with_paths(&[b"add".to_vec()], &[b"*.rs".to_vec()]);
    assert!(argv.contains(&b"add".to_vec()));
    assert!(argv.contains(&b"--".to_vec()));
    assert!(argv.last().unwrap().ends_with(b"*.rs"));
    let paths = collect_mutation_paths(
        &[
            (b"new".to_vec(), Some(b"old".to_vec())),
            (b"new".to_vec(), None),
            (b"x".to_vec(), None),
        ],
        false,
    );
    assert_eq!(paths, vec![b"old".to_vec(), b"new".to_vec(), b"x".to_vec()]);
    assert_eq!(index_mutation_words(true, true), vec![b"add".to_vec()]);
    assert_eq!(index_mutation_words(false, false), vec![b"rm".to_vec(), b"--cached".to_vec()]);
    assert_eq!(discard_route("discard_file", 1).unwrap(), DiscardRoute::File);
    assert_eq!(discard_route("history_split", 1).unwrap(), DiscardRoute::History);
    assert!(discard_route("discard_hunk", 1).is_err());
    assert_eq!(
        discard_file_summary(b"a.txt", false),
        "Delete untracked file 'a.txt'. This cannot be undone by Octopus."
    );
}
