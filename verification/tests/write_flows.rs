use octopus::branch_flow::{branch_delete_begin, branch_delete_step, DeleteAsk, DeleteEvent};
use octopus::domain::{RefItem, RepoState, TrustState};
use octopus::error::ErrorCode;
use octopus::registry::RepoRegistry;
use octopus::stash::{StashApplyMode, StashEntry};
use octopus::stash_flow::{stash_apply_begin, stash_apply_step, ApplyAsk, ApplyEvent};
use octopus::sync_flow::{fetch_begin, pull_begin, sync_step, SyncAsk, SyncEvent};

fn trusted() -> RepoRegistry {
    let mut reg = RepoRegistry::new();
    reg.open("r1", TrustState::Trusted);
    reg
}

fn branch(name: &str, current: bool) -> RefItem {
    RefItem {
        ref_id: format!("id-{name}"),
        full_name: format!("refs/heads/{name}"),
        label: name.to_string(),
        kind: "local".to_string(),
        oid: "0123456789abcdef".to_string(),
        current,
        checked_out_elsewhere: false,
    }
}

#[test]
fn branch_delete_spends_its_token_and_moves_the_version_on() {
    let mut reg = trusted();
    let (token, _) = reg.confirmation_issue("r1", 0, "branch_delete", &["id-feature".to_string()], 100);
    reg.pin_history("h", "r1", vec![], false);
    let (flow, ask) = branch_delete_begin(&mut reg, "r1", 0, "id-feature", &token, 10);
    assert!(matches!(ask, DeleteAsk::ListRefs));
    let refs = vec![branch("main", true), branch("feature", false)];
    let (flow, ask) = branch_delete_step(&mut reg, flow, DeleteEvent::Refs(Ok(refs)));
    assert!(matches!(ask, DeleteAsk::Delete(ref n) if n == "feature"));
    let (_, ask) = branch_delete_step(&mut reg, flow, DeleteEvent::Deleted(Ok((true, String::new()))));
    assert!(matches!(ask, DeleteAsk::Done(Ok(()))));
    assert_eq!(reg.session("r1").unwrap().version, 1);
    assert!(reg.pinned_history("h").is_none());
    // The token is spent.
    let (_, ask) = branch_delete_begin(&mut reg, "r1", 1, "id-feature", &token, 10);
    match ask {
        DeleteAsk::Done(Err(e)) => {
            assert_eq!(e.message, "Confirmation is missing, expired or does not match; confirm again")
        }
        _ => panic!("expected a spent token"),
    }
}

#[test]
fn branch_delete_refusals_keep_the_version() {
    let mut reg = trusted();
    let (token, _) = reg.confirmation_issue("r1", 0, "branch_delete", &["id-feature".to_string()], 100);
    let (flow, _) = branch_delete_begin(&mut reg, "r1", 0, "id-feature", &token, 10);
    let (flow, _) = branch_delete_step(&mut reg, flow, DeleteEvent::Refs(Ok(vec![branch("feature", false)])));
    let stderr = "error: the branch 'feature' is not fully merged.".to_string();
    let (_, ask) = branch_delete_step(&mut reg, flow, DeleteEvent::Deleted(Ok((false, stderr))));
    match ask {
        DeleteAsk::Done(Err(e)) => {
            assert_eq!(e.code, ErrorCode::REF_INVALID);
            assert_eq!(e.message, "Branch is not merged; safe delete refuses. Merge it first.");
        }
        _ => panic!("expected a refused delete"),
    }
    assert_eq!(reg.session("r1").unwrap().version, 0);
    let (token, _) = reg.confirmation_issue("r1", 0, "branch_delete", &["id-main".to_string()], 100);
    let (flow, _) = branch_delete_begin(&mut reg, "r1", 0, "id-main", &token, 10);
    let (_, ask) = branch_delete_step(&mut reg, flow, DeleteEvent::Refs(Ok(vec![branch("main", true)])));
    match ask {
        DeleteAsk::Done(Err(e)) => assert_eq!(e.message, "The current branch cannot be deleted"),
        _ => panic!("expected the current branch to be refused"),
    }
}

fn entry(oid: &str) -> StashEntry {
    StashEntry { stash_id: "stash@{0}".to_string(), oid: oid.to_string(), label: "wip".to_string(), created_at: 0 }
}

#[test]
fn stash_pop_applies_drops_and_returns_to_normal() {
    let mut reg = trusted();
    let (flow, ask) = stash_apply_begin(&reg, "r1", 0, "stash@{0}", "abc", StashApplyMode::Pop);
    assert!(matches!(ask, ApplyAsk::Resolve(ref id) if id == "stash@{0}"));
    let (flow, _) = stash_apply_step(&mut reg, flow, ApplyEvent::Resolved(Ok(Some("abc".to_string()))));
    let (flow, ask) = stash_apply_step(&mut reg, flow, ApplyEvent::Applied(Ok(true)));
    assert!(matches!(ask, ApplyAsk::Drop(_)));
    let (flow, _) = stash_apply_step(&mut reg, flow, ApplyEvent::Dropped(Ok(true)));
    let (_, ask) = stash_apply_step(&mut reg, flow, ApplyEvent::Listed(Ok(vec![entry("other")])));
    match ask {
        ApplyAsk::Done(Ok(o)) => {
            assert!(!o.retained);
            assert!(!o.conflicted);
            assert!(o.drop_error.is_none());
        }
        _ => panic!("expected a clean pop"),
    }
    let s = reg.session("r1").unwrap();
    assert_eq!(s.version, 1);
    assert_eq!(s.state, RepoState::Normal);
}

#[test]
fn stash_apply_conflicts_and_refusals() {
    let mut reg = trusted();
    let (flow, _) = stash_apply_begin(&reg, "r1", 0, "stash@{0}", "abc", StashApplyMode::Apply);
    let (flow, _) = stash_apply_step(&mut reg, flow, ApplyEvent::Resolved(Ok(Some("abc".to_string()))));
    let (flow, ask) = stash_apply_step(&mut reg, flow, ApplyEvent::Applied(Ok(false)));
    assert!(matches!(ask, ApplyAsk::ReadUnmerged));
    let (_, ask) = stash_apply_step(&mut reg, flow, ApplyEvent::Unmerged(Ok(true)));
    match ask {
        ApplyAsk::Done(Ok(o)) => assert!(o.retained && o.conflicted),
        _ => panic!("expected a conflicted apply"),
    }
    assert_eq!(reg.session("r1").unwrap().state, RepoState::StashConflict);
    // A reordered list is refused, and the version still moves on.
    let (flow, _) = stash_apply_begin(&reg, "r1", 1, "stash@{0}", "abc", StashApplyMode::Pop);
    let (_, ask) = stash_apply_step(&mut reg, flow, ApplyEvent::Resolved(Ok(Some("zzz".to_string()))));
    match ask {
        ApplyAsk::Done(Err(e)) => assert_eq!(e.code, ErrorCode::STALE_STATE),
        _ => panic!("expected a stale entry"),
    }
    assert_eq!(reg.session("r1").unwrap().version, 2);
    let (_, ask) = stash_apply_begin(&reg, "r1", 2, "stash@{x}", "abc", StashApplyMode::Pop);
    match ask {
        ApplyAsk::Done(Err(e)) => assert_eq!(e.message, "Unknown stash entry; refresh the stash list and retry"),
        _ => panic!("expected a bad id"),
    }
}

#[test]
fn fetch_and_pull_end_with_their_job_plans() {
    let reg = trusted();
    let (flow, ask) = fetch_begin(&reg, "r1", 0, None);
    assert!(matches!(ask, SyncAsk::DefaultRemote));
    let (flow, _) = sync_step(flow, SyncEvent::DefaultRemote(Ok("origin".to_string())));
    let (_, ask) = sync_step(flow, SyncEvent::RemoteUrl(Ok("https://github.com/acme/w.git".to_string())));
    match ask {
        SyncAsk::Done(Ok(p)) => {
            assert_eq!(p.kind, "fetch");
            assert_eq!(p.argv, vec!["fetch", "--progress", "origin"]);
            assert_eq!(p.summary, "fetch origin (https://github.com/acme/w.git)");
        }
        _ => panic!("expected a fetch plan"),
    }
    let (flow, ask) = pull_begin(&reg, "r1", 0);
    assert!(matches!(ask, SyncAsk::ReadCounts));
    let (_, ask) = sync_step(flow, SyncEvent::Counts(Ok((0, 1, 0))));
    match ask {
        SyncAsk::Done(Err(e)) => assert_eq!(e.code, ErrorCode::DIRTY_WORKTREE),
        _ => panic!("expected a dirty worktree"),
    }
    let (flow, _) = pull_begin(&reg, "r1", 0);
    let (flow, _) = sync_step(flow, SyncEvent::Counts(Ok((0, 0, 0))));
    let (_, ask) = sync_step(flow, SyncEvent::Upstream(Ok(Some(("origin".to_string(), "https://github.com/acme/w.git".to_string())))));
    match ask {
        SyncAsk::Done(Ok(p)) => {
            assert_eq!(p.kind, "pull");
            assert_eq!(p.argv, vec!["pull", "--ff-only", "--progress"]);
        }
        _ => panic!("expected a pull plan"),
    }
    let (_, ask) = fetch_begin(&reg, "r1", 3, None);
    match ask {
        SyncAsk::Done(Err(e)) => assert_eq!(e.code, ErrorCode::STALE_STATE),
        _ => panic!("expected a stale version"),
    }
}
