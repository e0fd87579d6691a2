use octopus::error::{ErrorCode, RecoveryAction};
use octopus::merge::{
    abort_summary_text, accept_summary_text, check_abort_head, check_abortable, check_identity,
    check_merge_message, merge_start_abort_outcome, pick_merge_source, side_labels,
    source_resolved, MergeRecord,
};

fn record() -> MergeRecord {
    MergeRecord {
        pre_head: "0123456789abcdef0123".to_string(),
        source_oid: "feedface".to_string(),
        source_label: "feature".to_string(),
        current_label: "main".to_string(),
    }
}

#[test]
fn merge_sources_are_live_refs_or_full_commit_ids() {
    let refs = "refs/heads/main\nrefs/heads/team/feature\nrefs/tags/v1\n";
    assert_eq!(
        pick_merge_source(refs, "refs/heads/team/feature").unwrap(),
        ("refs/heads/team/feature".to_string(), "feature".to_string())
    );
    let oid = "0123456789abcdef0123456789abcdef01234567";
    assert_eq!(
        pick_merge_source(refs, oid).unwrap(),
        (oid.to_string(), "0123456789ab".to_string())
    );
    assert_eq!(
        pick_merge_source(refs, "refs/heads/gone").unwrap_err().message,
        "Merge source must be a current branch, tag or commit"
    );
    assert!(pick_merge_source(refs, "0123456").is_err());
    assert_eq!(source_resolved(true, "abc\n").unwrap().iter().collect::<String>(), "abc");
    assert!(source_resolved(false, "").is_err());
}

#[test]
fn merge_completion_checks() {
    assert!(check_merge_message("Merge feature", "", true).is_ok());
    assert_eq!(
        check_merge_message("  ", "", true).unwrap_err().message,
        "A merge commit needs a subject"
    );
    assert!(check_merge_message("Merge", "", false).is_err());
    assert!(check_merge_message(&"s".repeat(501), "", true).is_err());
    assert!(check_identity(&Some("Ada".to_string()), &Some("ada@x".to_string())).is_ok());
    let e = check_identity(&Some(String::new()), &Some("ada@x".to_string())).unwrap_err();
    assert_eq!(e.code, ErrorCode::IDENTITY_MISSING);
    assert_eq!(e.recovery, RecoveryAction::ConfigureGit);
    assert!(check_identity(&None, &None).is_err());
}

#[test]
fn merge_start_cleanup_and_abort() {
    let (e, cleaned) = merge_start_abort_outcome(true, false);
    assert!(cleaned);
    assert_eq!(e.message, "Git could not finish the merge operation");
    let (e, cleaned) = merge_start_abort_outcome(true, true);
    assert!(!cleaned);
    assert_eq!(e.recovery, RecoveryAction::InspectState);
    assert!(check_abortable(true, true).is_ok());
    assert!(check_abortable(false, true).is_err());
    assert!(check_abortable(true, false).is_err());
    assert!(check_abort_head("abc", "abc").is_ok());
    assert!(check_abort_head("abd", "abc").is_err());
}

#[test]
fn merge_summaries_and_labels() {
    let r = record();
    assert_eq!(side_labels(Some(&r), "HEAD"), ("main".to_string(), "feature".to_string()));
    assert_eq!(side_labels(None, "HEAD"), ("HEAD".to_string(), "incoming".to_string()));
    assert_eq!(
        abort_summary_text(&r, "fedcba9876543210fedc"),
        "Abort the app-started merge of 'feature' into 'main'? The worktree returns to \
         0123456789ab as recorded before the merge. Edits made after the merge started cannot \
         be restored by abort; current HEAD is fedcba987654."
    );
    assert_eq!(
        accept_summary_text("a.txt", "feature", 12, "incoming"),
        "Overwrite working file 'a.txt' with the feature version (12 bytes, incoming stage). \
         The current working content is lost; the file stays unstaged."
    );
}
