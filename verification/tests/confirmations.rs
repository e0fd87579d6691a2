use octopus::confirmation_flow::{prepare_begin, prepare_event_fits, prepare_step, PrepareAsk, PrepareEvent, PrepareFlow};
use octopus::domain::{ConfirmationDetails, RefItem, TrustState};
use octopus::error::{AppError, ErrorCode};
use octopus::merge::MergeRecord;
use octopus::registry::RepoRegistry;

fn registry(trust: TrustState) -> RepoRegistry {
    let mut reg = RepoRegistry::new();
    reg.open("r1", trust);
    reg
}

fn strings(v: &[&str]) -> Vec<String> {
    v.iter().map(|s| s.to_string()).collect()
}

fn issued(ask: PrepareAsk) -> ConfirmationDetails {
    match ask {
        PrepareAsk::Done(Ok(d)) => d,
        _ => panic!("no confirmation was issued"),
    }
}

fn refused(ask: PrepareAsk) -> AppError {
    match ask {
        PrepareAsk::Done(Err(e)) => e,
        _ => panic!("the request was not refused"),
    }
}

fn step(reg: &mut RepoRegistry, flow: PrepareFlow, ev: PrepareEvent) -> (PrepareFlow, PrepareAsk) {
    assert!(prepare_event_fits(&flow, &ev));
    prepare_step(reg, flow, ev)
}

fn branch(name: &str, oid: &str, current: bool) -> RefItem {
    RefItem {
        ref_id: format!("id-{name}"),
        full_name: format!("refs/heads/{name}"),
        label: name.to_string(),
        kind: "local".to_string(),
        oid: oid.to_string(),
        current,
        checked_out_elsewhere: false,
    }
}

#[test]
fn history_reset_is_prepared_through_the_confirmation_entry_point() {
    let mut reg = registry(TrustState::Trusted);
    let targets = strings(&["abcdef0123456789"]);
    let (_, ask) = prepare_begin(&mut reg, "r1", 0, "history_reset_hard", &targets, 100);
    let d = issued(ask);
    assert_eq!(
        d.summary,
        "Hard-reset the current branch to abcdef0. Index and worktree files change to match; \
         uncommitted work is destroyed and cannot be recovered by Octopus."
    );
    assert_eq!(d.expires_at, 100);
    assert!(reg.confirmation_consume("r1", 0, "history_reset_hard", &targets, &d.confirmation_token, 50).is_ok());
}

#[test]
fn confirmation_tokens_are_single_use() {
    let mut reg = registry(TrustState::Trusted);
    let targets = strings(&["abcdef0123456789"]);
    let (_, ask) = prepare_begin(&mut reg, "r1", 0, "history_split", &targets, 100);
    let d = issued(ask);
    assert!(reg.confirmation_consume("r1", 0, "history_split", &targets, &d.confirmation_token, 10).is_ok());
    let again = reg.confirmation_consume("r1", 0, "history_split", &targets, &d.confirmation_token, 10);
    assert_eq!(
        again.unwrap_err().message,
        "Confirmation is missing, expired or does not match; confirm again"
    );
}

#[test]
fn confirmation_tokens_are_bound_to_their_request() {
    let mut reg = registry(TrustState::Trusted);
    let targets = strings(&["abcdef0123456789"]);
    let (token, _) = reg.confirmation_issue("r1", 0, "history_rebase", &targets, 100);
    let other = strings(&["0000000000000000"]);
    assert!(reg.confirmation_consume("r1", 0, "history_rebase", &other, &token, 10).is_err());
    assert!(reg.confirmation_consume("r1", 1, "history_rebase", &targets, &token, 10).is_err());
    assert!(reg.confirmation_consume("r2", 0, "history_rebase", &targets, &token, 10).is_err());
    assert!(reg.confirmation_consume("r1", 0, "history_split", &targets, &token, 10).is_err());
    assert!(reg.confirmation_consume("r1", 0, "history_rebase", &targets, &token, 101).is_err());
    // A refusal leaves the token usable for its own request.
    assert!(reg.confirmation_consume("r1", 0, "history_rebase", &targets, &token, 100).is_ok());
}

#[test]
fn refused_preparations_issue_nothing() {
    let mut reg = registry(TrustState::ReadOnly);
    let targets = strings(&["refs/heads/feature"]);
    let (_, ask) = prepare_begin(&mut reg, "r1", 0, "branch_delete", &targets, 100);
    let e = refused(ask);
    assert_eq!(e.code, ErrorCode::TRUST_REQUIRED);
    assert_eq!(e.message, "Trust this repository to delete branches");
    let (_, ask) = prepare_begin(&mut reg, "r1", 0, "discard_file", &targets, 100);
    assert_eq!(refused(ask).message, "Trust this repository to discard working changes");

    let mut reg = registry(TrustState::Trusted);
    let (_, ask) = prepare_begin(&mut reg, "r1", 3, "branch_delete", &targets, 100);
    assert_eq!(refused(ask).code, ErrorCode::STALE_STATE);
    let (_, ask) = prepare_begin(&mut reg, "gone", 0, "branch_delete", &targets, 100);
    assert_eq!(refused(ask).code, ErrorCode::REPO_UNAVAILABLE);
    let (_, ask) = prepare_begin(&mut reg, "r1", 0, "reset_hard", &targets, 100);
    assert_eq!(refused(ask).message, "Unsupported confirmation action");
    let (_, ask) = prepare_begin(&mut reg, "r1", 0, "history_reset_hard", &strings(&["a", "b"]), 100);
    assert_eq!(refused(ask).message, "Invalid discard confirmation target");
    let (_, ask) = prepare_begin(&mut reg, "r1", 0, "conflict_accept", &strings(&["p", "theirs"]), 100);
    assert_eq!(refused(ask).message, "Resolution side must be current or incoming");
}

#[test]
fn branch_delete_summarises_every_target_then_issues() {
    let mut reg = registry(TrustState::Trusted);
    let targets = strings(&["id-feature", "id-old"]);
    let (flow, ask) = prepare_begin(&mut reg, "r1", 0, "branch_delete", &targets, 100);
    assert!(matches!(ask, PrepareAsk::ListRefs));
    let refs = vec![
        branch("main", "1111111111111111", true),
        branch("feature", "0123456789abcdef", false),
        branch("old", "fedcba9876543210", false),
    ];
    let (flow, ask) = step(&mut reg, flow, PrepareEvent::Refs(Ok(refs)));
    match ask {
        PrepareAsk::IsMerged(oid) => assert_eq!(oid, "0123456789abcdef"),
        _ => panic!("expected a merge question"),
    }
    let (flow, ask) = step(&mut reg, flow, PrepareEvent::Merged(true));
    match ask {
        PrepareAsk::IsMerged(oid) => assert_eq!(oid, "fedcba9876543210"),
        _ => panic!("expected a merge question"),
    }
    let (_, ask) = step(&mut reg, flow, PrepareEvent::Merged(false));
    let d = issued(ask);
    assert_eq!(
        d.summary,
        "Delete local branch 'feature' (0123456789ab); fully merged into HEAD\n\
         Delete local branch 'old' (fedcba987654); NOT merged into HEAD — safe delete will refuse"
    );
    assert!(reg.confirmation_consume("r1", 0, "branch_delete", &targets, &d.confirmation_token, 1).is_ok());
}

#[test]
fn branch_delete_refuses_the_current_branch() {
    let mut reg = registry(TrustState::Trusted);
    let targets = strings(&["id-main"]);
    let (flow, _) = prepare_begin(&mut reg, "r1", 0, "branch_delete", &targets, 100);
    let refs = vec![branch("main", "1111111111111111", true)];
    let (_, ask) = step(&mut reg, flow, PrepareEvent::Refs(Ok(refs)));
    assert_eq!(refused(ask).message, "The current branch cannot be deleted");
    let (flow, _) = prepare_begin(&mut reg, "r1", 0, "branch_delete", &strings(&["id-nope"]), 100);
    let (_, ask) = step(&mut reg, flow, PrepareEvent::Refs(Ok(vec![])));
    assert_eq!(refused(ask).code, ErrorCode::REF_INVALID);
}

#[test]
fn branch_move_names_both_commits() {
    let mut reg = registry(TrustState::Trusted);
    let targets = strings(&["id-feature", "aaaaaaabbbbbbb"]);
    let (flow, _) = prepare_begin(&mut reg, "r1", 0, "branch_move", &targets, 100);
    let refs = vec![branch("feature", "0123456789abcdef", false)];
    let (_, ask) = step(&mut reg, flow, PrepareEvent::Refs(Ok(refs)));
    assert_eq!(
        issued(ask).summary,
        "Move branch 'feature' from 0123456 to aaaaaaa. Commits left behind stay reachable from \
         the reflog for a while, but GitDock keeps no backup."
    );
}

#[test]
fn discard_file_binds_the_content_fingerprint() {
    let mut reg = registry(TrustState::Trusted);
    let targets = strings(&["path-1"]);
    let (flow, ask) = prepare_begin(&mut reg, "r1", 0, "discard_file", &targets, 100);
    match &ask {
        PrepareAsk::DiscardFile { path_id } => assert_eq!(path_id, "path-1"),
        _ => panic!("expected a discard question"),
    }
    let ev = PrepareEvent::File(Ok((b"notes.txt".to_vec(), false, "fp-9".to_string())));
    let (_, ask) = step(&mut reg, flow, ev);
    let d = issued(ask);
    assert_eq!(d.summary, "Delete untracked file 'notes.txt'. This cannot be undone by Octopus.");
    assert!(reg.confirmation_consume("r1", 0, "discard_file", &targets, &d.confirmation_token, 1).is_err());
    let binding = strings(&["path-1", "fp-9"]);
    assert!(reg.confirmation_consume("r1", 0, "discard_file", &binding, &d.confirmation_token, 1).is_ok());
}

#[test]
fn merge_abort_needs_the_app_started_merge() {
    let mut reg = registry(TrustState::Trusted);
    let targets = strings(&["merge"]);
    let (_, ask) = prepare_begin(&mut reg, "r1", 0, "merge_abort", &targets, 100);
    assert_eq!(refused(ask).message, "Only merges started by the app can be aborted here");
    reg.set_merge(
        "r1",
        Some(MergeRecord {
            pre_head: "0123456789abcdef0123".to_string(),
            source_oid: "feedface".to_string(),
            source_label: "feature".to_string(),
            current_label: "main".to_string(),
        }),
    );
    let (flow, ask) = prepare_begin(&mut reg, "r1", 0, "merge_abort", &targets, 100);
    assert!(matches!(ask, PrepareAsk::MergeHeadLive));
    let (flow, ask) = step(&mut reg, flow, PrepareEvent::MergeHeadLive(true));
    assert!(matches!(ask, PrepareAsk::ReadHead));
    let (_, ask) = step(&mut reg, flow, PrepareEvent::Head(Ok("fedcba9876543210fedc".to_string())));
    assert_eq!(
        issued(ask).summary,
        "Abort the app-started merge of 'feature' into 'main'? The worktree returns to \
         0123456789ab as recorded before the merge. Edits made after the merge started cannot \
         be restored by abort; current HEAD is fedcba987654."
    );
    let (flow, _) = prepare_begin(&mut reg, "r1", 0, "merge_abort", &targets, 100);
    let (_, ask) = step(&mut reg, flow, PrepareEvent::MergeHeadLive(false));
    assert_eq!(refused(ask).message, "The merge marker is gone; the merge already ended");
}
