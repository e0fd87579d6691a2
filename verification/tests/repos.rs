use octopus::domain::{HeadState, OpenWorkspaceEntry, RepoState, TrustState};
use octopus::error::{AppError, ErrorCode, RecoveryAction};
use octopus::repos::{
    check_close, check_init_target, decode_workspace_key, encode_workspace_key, head_state,
    heal_repo_state, init_folder_name, merge_origin, skipped_workspace, too_many_workspaces,
    trust_update,
};

#[test]
fn workspace_keys_decode_only_hex_roots() {
    assert_eq!(decode_workspace_key("worktree-v1:2f746d70").unwrap(), b"/tmp".to_vec());
    assert!(decode_workspace_key("/etc/passwd").is_err());
    assert!(decode_workspace_key("worktree-v1:zz").is_err());
    assert!(decode_workspace_key("worktree-v1:").is_err());
    assert!(decode_workspace_key("worktree-v1:2f7").is_err());
    assert_eq!(decode_workspace_key("worktree-v1:2F2A").unwrap(), b"/*".to_vec());
}

#[test]
fn workspace_keys_round_trip() {
    for root in [&b"/tmp"[..], b"/home/ada/My Repo", b"/\xff\x00odd"] {
        let key = encode_workspace_key(root);
        assert!(key.starts_with("worktree-v1:"));
        assert_eq!(decode_workspace_key(&key).unwrap(), root.to_vec());
    }
    assert_eq!(encode_workspace_key(b"/tmp"), "worktree-v1:2f746d70");
}

#[test]
fn head_reads_branch_unborn_and_detached() {
    assert_eq!(
        head_state(true, "refs/heads/main\n", true, "abc\n").unwrap(),
        HeadState::Branch {
            ref_id: "refs/heads/main".to_string(),
            name: "main".to_string(),
            oid: "abc".to_string()
        }
    );
    assert_eq!(
        head_state(true, "refs/heads/new\n", false, "").unwrap(),
        HeadState::Unborn { name: "new".to_string() }
    );
    assert_eq!(
        head_state(false, "", true, "def\n").unwrap(),
        HeadState::Detached { oid: "def".to_string() }
    );
    assert_eq!(head_state(false, "", false, "").unwrap_err().code, ErrorCode::GIT_ERROR);
}

#[test]
fn stale_state_overrides_heal() {
    assert_eq!(heal_repo_state(RepoState::Merging, false, None), RepoState::Normal);
    assert_eq!(heal_repo_state(RepoState::Merging, true, None), RepoState::Merging);
    assert_eq!(heal_repo_state(RepoState::StashConflict, true, Some(0)), RepoState::Normal);
    assert_eq!(heal_repo_state(RepoState::StashConflict, true, Some(2)), RepoState::StashConflict);
    assert_eq!(merge_origin(true, false).as_deref(), Some("app"));
    assert_eq!(merge_origin(false, true).as_deref(), Some("external"));
    assert_eq!(merge_origin(false, false), None);
}

#[test]
fn trust_and_close_rules() {
    assert_eq!(trust_update(true, 4), (TrustState::Trusted, 5));
    assert_eq!(trust_update(false, u64::MAX), (TrustState::ReadOnly, u64::MAX));
    assert!(check_close(true, false).is_ok());
    assert_eq!(check_close(true, true).unwrap_err().code, ErrorCode::REPO_BUSY);
    assert_eq!(check_close(false, false).unwrap_err().code, ErrorCode::REPO_UNAVAILABLE);
    assert!(check_init_target(false).is_ok());
    assert!(check_init_target(true).is_err());
    assert_eq!(init_folder_name(Some("proj")).unwrap(), "proj");
    assert!(init_folder_name(None).is_err());
    assert!(too_many_workspaces(100).is_ok());
    assert!(too_many_workspaces(101).is_err());
}

#[test]
fn skipped_tabs_keep_their_key_and_reason() {
    let entry = OpenWorkspaceEntry { key: "k".to_string(), display_path: "/x".to_string() };
    let s = skipped_workspace(
        &entry,
        AppError::new(ErrorCode::NOT_REPOSITORY, "gone".to_string(), RecoveryAction::ChooseRepository, false),
    );
    assert_eq!(s.key, "k");
    assert_eq!(s.display_path, "/x");
    assert_eq!(s.code, ErrorCode::NOT_REPOSITORY);
    assert_eq!(s.message, "gone");
}
