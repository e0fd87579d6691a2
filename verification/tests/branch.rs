use octopus::branch::{
    check_move_target, check_new_branch_name, check_rename, confirmation_route,
    confirmation_trust_action, delete_failure, delete_summary_line, join_lines, move_summary,
    rename_failure, short_name, split_upstream, switch_plan, ConfirmationRoute,
};
use octopus::domain::RefItem;
use octopus::error::ErrorCode;

fn local(name: &str, oid: &str, current: bool, elsewhere: bool) -> RefItem {
    RefItem {
        ref_id: format!("refs/heads/{name}"),
        full_name: format!("refs/heads/{name}"),
        label: name.to_string(),
        kind: "localBranch".to_string(),
        oid: oid.to_string(),
        current,
        checked_out_elsewhere: elsewhere,
    }
}

#[test]
fn switching_checks_existence_current_and_other_worktrees() {
    let refs = vec![
        local("main", "a", true, false),
        local("topic", "b", false, false),
        local("wt", "c", false, true),
    ];
    assert_eq!(switch_plan(&refs, "main").unwrap(), true);
    assert_eq!(switch_plan(&refs, "topic").unwrap(), false);
    assert_eq!(switch_plan(&refs, "wt").unwrap_err().code, ErrorCode::REF_INVALID);
    assert_eq!(switch_plan(&refs, "gone").unwrap_err().code, ErrorCode::REF_INVALID);
    assert_eq!(short_name("refs/heads/a/b").as_deref(), Some("a/b"));
    assert_eq!(short_name("refs/tags/v1"), None);
}

#[test]
fn confirmations_route_by_action_and_target_shape() {
    let t = |v: &[&str]| v.iter().map(|s| s.to_string()).collect::<Vec<String>>();
    assert_eq!(confirmation_route("discard_file", &t(&[])).unwrap(), ConfirmationRoute::Discard);
    assert_eq!(
        confirmation_route("branch_move", &t(&["b", "c"])).unwrap(),
        ConfirmationRoute::BranchMove
    );
    assert!(confirmation_route("branch_move", &t(&["b"])).is_err());
    assert_eq!(
        confirmation_route("merge_abort", &t(&["merge"])).unwrap(),
        ConfirmationRoute::MergeAbort
    );
    assert!(confirmation_route("merge_abort", &t(&["other"])).is_err());
    assert_eq!(
        confirmation_route("conflict_accept", &t(&["f", "current"])).unwrap(),
        ConfirmationRoute::ConflictAccept
    );
    assert_eq!(
        confirmation_route("branch_delete", &t(&["a"])).unwrap(),
        ConfirmationRoute::BranchDelete
    );
    let many: Vec<String> = (0..17).map(|i| format!("b{i}")).collect();
    assert!(confirmation_route("branch_delete", &many).is_err());
    assert!(confirmation_route("branch_delete", &t(&[])).is_err());
    assert_eq!(
        confirmation_route("reset_hard", &t(&["x"])).unwrap_err().message,
        "Unsupported confirmation action"
    );
    assert_eq!(confirmation_trust_action("discard_hunk"), "discard working changes");
    assert_eq!(confirmation_trust_action("branch_delete"), "delete branches");
}

#[test]
fn confirmation_summaries() {
    let topic = local("topic", "0123456789abcdef", false, false);
    assert!(move_summary(&topic, "fedcba9876543210")
        .unwrap()
        .starts_with("Move branch 'topic' from 0123456 to fedcba9."));
    assert_eq!(
        delete_summary_line("topic", "0123456789abcdef", true),
        "Delete local branch 'topic' (0123456789ab); fully merged into HEAD"
    );
    assert_eq!(join_lines(&["a".to_string(), "b".to_string()]), "a\nb");
    assert_eq!(join_lines(&[]), "");
}

#[test]
fn moves_renames_and_deletes_refuse_unsafe_cases() {
    assert!(check_move_target("x", false, false).is_ok());
    assert_eq!(check_move_target("x", true, false).unwrap_err().code, ErrorCode::INVALID_ARGUMENT);
    assert_eq!(check_move_target("x", false, true).unwrap_err().code, ErrorCode::REF_INVALID);
    assert_eq!(check_new_branch_name(" n ").unwrap().iter().collect::<String>(), "n");
    assert!(check_new_branch_name("  ").is_err());
    assert!(check_rename("a", "a", false).is_err());
    assert!(check_rename("a", "b", true).is_err());
    assert!(check_rename("a", "b", false).is_ok());
    assert_eq!(rename_failure("fatal: already exists").code, ErrorCode::INVALID_ARGUMENT);
    assert_eq!(delete_failure("error: branch is not fully merged").code, ErrorCode::REF_INVALID);
    assert_eq!(delete_failure("boom").code, ErrorCode::GIT_ERROR);
}

#[test]
fn upstreams_split_at_the_first_slash() {
    let (remote, dest) = split_upstream(true, "origin/feature/x\n").unwrap();
    assert_eq!(remote.iter().collect::<String>(), "origin");
    assert_eq!(dest.iter().collect::<String>(), "feature/x");
    assert!(split_upstream(true, "origin").is_err());
    assert!(split_upstream(true, "/x").is_err());
    assert!(split_upstream(false, "origin/main").is_err());
}

#[test]
fn history_rewrites_route_to_the_discard_confirmation() {
    let t = |v: &[&str]| v.iter().map(|s| s.to_string()).collect::<Vec<String>>();
    for action in ["history_reset_hard", "history_rebase", "history_rebase_interactive", "history_split"] {
        assert_eq!(confirmation_route(action, &t(&["oid"])).unwrap(), ConfirmationRoute::Discard);
    }
    assert_eq!(
        confirmation_route("reset_hard", &t(&["oid"])).unwrap_err().message,
        "Unsupported confirmation action"
    );
}
