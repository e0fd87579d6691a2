use octopus::error::ErrorCode;
use octopus::stash::{
    after_apply, apply_failure, check_stash_identity, check_stash_message, parse_stash_index,
    parse_stash_list, stash_push_argv, worktree_dirty, StashApplyMode, StashEntry,
};

#[test]
fn stash_ids_are_exact() {
    assert_eq!(parse_stash_index("stash@{0}"), Some(0));
    assert_eq!(parse_stash_index("stash@{12}"), Some(12));
    for bad in ["stash@{}", "stash@{-1}", "stash@{1", "stash{1}", "stash@{+1}", "stash@{1}x"] {
        assert_eq!(parse_stash_index(bad), None, "{bad}");
    }
}

#[test]
fn stash_list_records_parse_and_skip_junk() {
    let out = "stash@{0}\u{0}0123456789abcdef\u{0}1700000000\u{0}On main: wip\n\
               stash@{1}\u{0}abcdef0\u{0}notanumber\u{0}WIP on topic\n\
               continuation of a subject\n\
               stash@{2}\u{0}short\u{0}1\u{0}too short oid\n";
    let entries = parse_stash_list(out);
    assert_eq!(
        entries,
        vec![
            StashEntry {
                stash_id: "stash@{0}".to_string(),
                oid: "0123456789abcdef".to_string(),
                label: "On main: wip".to_string(),
                created_at: 1_700_000_000,
            },
            StashEntry {
                stash_id: "stash@{1}".to_string(),
                oid: "abcdef0".to_string(),
                label: "WIP on topic".to_string(),
                created_at: 0,
            },
        ]
    );
    assert!(parse_stash_list("").is_empty());
}

#[test]
fn stash_push_keeps_ignored_files_out() {
    assert_eq!(stash_push_argv("", false), vec!["stash", "push"]);
    assert_eq!(
        stash_push_argv("msg", true),
        vec!["stash", "push", "-m", "msg", "--include-untracked"]
    );
    assert!(check_stash_message(&"m".repeat(500)).is_ok());
    assert!(check_stash_message(&"m".repeat(501)).is_err());
    assert!(!worktree_dirty(true, true, true, false));
    assert!(worktree_dirty(true, true, true, true));
    assert!(worktree_dirty(false, true, false, false));
}

#[test]
fn apply_and_pop_outcomes() {
    assert!(check_stash_identity(Some("abc"), "abc").is_ok());
    assert_eq!(check_stash_identity(Some("abd"), "abc").unwrap_err().code, ErrorCode::STALE_STATE);
    assert!(check_stash_identity(None, "abc").is_err());
    assert!(apply_failure(true).is_ok());
    assert_eq!(apply_failure(false).unwrap_err().code, ErrorCode::GIT_ERROR);
    let kept = StashEntry {
        stash_id: "stash@{0}".to_string(),
        oid: "abc".to_string(),
        label: "x".to_string(),
        created_at: 0,
    };
    assert_eq!(after_apply(StashApplyMode::Apply, false, &[], "abc"), (true, None));
    assert_eq!(after_apply(StashApplyMode::Pop, true, &[], "abc"), (false, None));
    let (still, err) = after_apply(StashApplyMode::Pop, true, &[kept], "abc");
    assert!(still);
    assert_eq!(err.unwrap().code, ErrorCode::GIT_ERROR);
    let (still, err) = after_apply(StashApplyMode::Pop, false, &[], "abc");
    assert!(still && err.is_some());
}
