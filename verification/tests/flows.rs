use octopus::bitbucket_flow::{connect_begin, connect_step, ConnectAsk, ConnectEvent};
use octopus::commit_flow::{commit_begin, commit_step, CommitAsk, CommitEvent};
use octopus::commit_merge_flow::{merge_commit_begin, merge_commit_step, CommitMergeAsk, CommitMergeEvent};
use octopus::domain::{RepoState, TrustState};
use octopus::error::{AppError, ErrorCode, RecoveryAction};
use octopus::gate::SessionInfo;
use octopus::history_actions::{RebaseInteractiveRequest, RebasePlanEntry};
use octopus::jobs::{JobRegistry, OperationState};
use octopus::merge_flow::{
    merge_complete_begin, merge_complete_step, merge_start_begin, merge_start_step, CompleteAsk,
    CompleteEvent, GitOut, StartAsk, StartEvent, StartOutcome,
};
use octopus::pr_flow::{pr_begin, pr_event_fits, pr_step, PrAsk, PrEvent, SendFailure};
use octopus::rebase_flow::{rebase_begin, rebase_step, RebaseAsk, RebaseEvent};
use octopus::registry::RepoRegistry;
use octopus::remote::PrProvider;
use octopus::remote_job::{remote_job_register, remote_job_step, RemoteAsk, RemoteEvent};
use octopus::sync::{BitbucketConnectRequest, JobOutcome, PullRequestCreateRequest};

fn pr_request(remote: Option<&str>) -> PullRequestCreateRequest {
    PullRequestCreateRequest {
        request_id: "req-1".to_string(),
        repo_id: "r1".to_string(),
        expected_version: 0,
        remote: remote.map(|s| s.to_string()),
        source_branch: " feature ".to_string(),
        target_branch: "main".to_string(),
        title: " Add widgets ".to_string(),
        description: "".to_string(),
    }
}

#[test]
fn pull_request_flow_from_remote_to_reply() {
    let (flow, ask) = pr_begin(&pr_request(Some("origin")), None);
    match &ask {
        PrAsk::RemoteUrl(n) => assert_eq!(n, "origin"),
        _ => panic!("expected the remote URL question"),
    }
    let ev = PrEvent::RemoteUrl(Ok("https://alice@bitbucket.org/acme/widgets.git".to_string()));
    assert!(pr_event_fits(&flow, &ev));
    let (flow, ask) = pr_step(flow, ev);
    match &ask {
        PrAsk::CheckRef(n) => assert_eq!(n, "feature"),
        _ => panic!("expected a ref-format check"),
    }
    let (flow, ask) = pr_step(flow, PrEvent::RefChecked { ran: true, valid: true });
    match &ask {
        PrAsk::CheckRef(n) => assert_eq!(n, "main"),
        _ => panic!("expected a ref-format check"),
    }
    let (flow, ask) = pr_step(flow, PrEvent::RefChecked { ran: true, valid: true });
    match &ask {
        PrAsk::Credential(host) => assert_eq!(host, "bitbucket.org"),
        _ => panic!("expected the credential question"),
    }
    let (flow, ask) = pr_step(flow, PrEvent::Credential(Ok(("alice".to_string(), "s3cret".to_string()))));
    match &ask {
        PrAsk::Send { endpoint, payload, provider, secret } => {
            assert_eq!(endpoint, "https://api.bitbucket.org/2.0/repositories/acme/widgets/pullrequests");
            assert_eq!(*provider, PrProvider::Bitbucket);
            assert_eq!(secret, "s3cret");
            assert!(payload.contains("\"title\":\"Add widgets\""));
        }
        _ => panic!("expected the request"),
    }
    let body = br#"{"id": 7, "links": {"html": {"href": "https://bitbucket.org/acme/widgets/pull-requests/7"}}}"#;
    let (_, ask) = pr_step(flow, PrEvent::Reply(Ok((201, body.to_vec()))));
    match ask {
        PrAsk::Done(Ok(p)) => {
            assert_eq!(p.provider, "bitbucket");
            assert_eq!(p.url, "https://bitbucket.org/acme/widgets/pull-requests/7");
            assert_eq!(p.reference, "#7");
        }
        _ => panic!("expected the pull request"),
    }
}

fn at_reply() -> octopus::pr_flow::PrFlow {
    let (flow, _) = pr_begin(&pr_request(None), Some("http://localhost:9/"));
    let (flow, _) = pr_step(flow, PrEvent::DefaultRemote(Ok("origin".to_string())));
    let (flow, _) = pr_step(flow, PrEvent::RemoteUrl(Ok("git@github.com:acme/widgets.git".to_string())));
    let (flow, _) = pr_step(flow, PrEvent::RefChecked { ran: true, valid: true });
    let (flow, _) = pr_step(flow, PrEvent::RefChecked { ran: true, valid: true });
    let (flow, ask) = pr_step(flow, PrEvent::Credential(Ok(("u".to_string(), "tok".to_string()))));
    match &ask {
        PrAsk::Send { endpoint, .. } => assert_eq!(endpoint, "http://localhost:9/repos/acme/widgets/pulls"),
        _ => panic!("expected the request"),
    }
    flow
}

#[test]
fn pull_request_flow_failures() {
    let (_, ask) = pr_step(at_reply(), PrEvent::Reply(Err(SendFailure::TimedOut)));
    match ask {
        PrAsk::Done(Err(e)) => assert_eq!(e.code, ErrorCode::TIMEOUT),
        _ => panic!("expected a timeout"),
    }
    let (_, ask) = pr_step(at_reply(), PrEvent::Reply(Err(SendFailure::Unreadable)));
    match ask {
        PrAsk::Done(Err(e)) => assert_eq!(e.message, "Could not read the provider response"),
        _ => panic!("expected an unreadable reply"),
    }
    let (_, ask) = pr_step(at_reply(), PrEvent::Reply(Ok((401, b"{}".to_vec()))));
    assert!(matches!(ask, PrAsk::Done(Err(_))));
    let (flow, _) = pr_begin(&pr_request(Some("origin")), None);
    let (_, ask) = pr_step(flow, PrEvent::RemoteUrl(Ok("https://example.com/a/b.git".to_string())));
    match ask {
        PrAsk::Done(Err(e)) => assert_eq!(e.code, ErrorCode::UNSUPPORTED),
        _ => panic!("expected an unsupported host"),
    }
    let (_, ask) = pr_begin(&pr_request(Some("bad name")), None);
    match ask {
        PrAsk::Done(Err(e)) => assert_eq!(e.message, "Remote name has unsupported characters"),
        _ => panic!("expected a refused remote name"),
    }
    let mut same = pr_request(Some("origin"));
    same.target_branch = "feature".to_string();
    let (flow, _) = pr_begin(&same, None);
    let (flow, _) = pr_step(flow, PrEvent::RemoteUrl(Ok("https://github.com/acme/widgets".to_string())));
    let (flow, _) = pr_step(flow, PrEvent::RefChecked { ran: true, valid: true });
    let (_, ask) = pr_step(flow, PrEvent::RefChecked { ran: true, valid: true });
    match ask {
        PrAsk::Done(Err(e)) => assert_eq!(e.message, "Source and target branches must differ"),
        _ => panic!("expected equal branches to be refused"),
    }
}

fn entry(oid: &str, action: &str, message: Option<&str>) -> RebasePlanEntry {
    RebasePlanEntry { oid: oid.to_string(), action: action.to_string(), message: message.map(|m| m.to_string()) }
}

fn rebase_request(token: &str, plan: Vec<RebasePlanEntry>) -> RebaseInteractiveRequest {
    RebaseInteractiveRequest {
        request_id: "req".to_string(),
        repo_id: "r1".to_string(),
        expected_version: 0,
        oid: "aaa".to_string(),
        plan,
        confirmation_token: token.to_string(),
    }
}

fn ok() -> RebaseEvent {
    RebaseEvent::Checked(Ok(()))
}

#[test]
fn interactive_rebase_consumes_its_confirmation_and_checks_the_range() {
    let mut reg = RepoRegistry::new();
    reg.open("r1", TrustState::Trusted);
    let (token, _) = reg.confirmation_issue("r1", 0, "history_rebase_interactive", &["aaa".to_string()], 100);
    let plan = vec![entry("aaa", "pick", None), entry("bbb", "reword", Some(" New words "))];
    let (flow, ask) = rebase_begin(&reg, rebase_request(&token, plan));
    assert!(matches!(ask, RebaseAsk::CheckOid(ref o) if o == "aaa"));
    let (flow, ask) = rebase_step(&mut reg, flow, ok());
    assert!(matches!(ask, RebaseAsk::CheckHeadBranch));
    let (flow, _) = rebase_step(&mut reg, flow, ok());
    let (flow, ask) = rebase_step(&mut reg, flow, ok());
    assert!(matches!(ask, RebaseAsk::CheckClean));
    let (flow, ask) = rebase_step(&mut reg, flow, RebaseEvent::Clean { result: Ok(()), now: 5 });
    assert!(matches!(ask, RebaseAsk::CheckOid(ref o) if o == "aaa"));
    let (flow, ask) = rebase_step(&mut reg, flow, ok());
    assert!(matches!(ask, RebaseAsk::CheckOid(ref o) if o == "bbb"));
    let (flow, ask) = rebase_step(&mut reg, flow, ok());
    assert!(matches!(ask, RebaseAsk::ReadParent(ref o) if o == "aaa"));
    let (flow, ask) = rebase_step(&mut reg, flow, RebaseEvent::Parent(Ok(Some("ppp".to_string()))));
    assert!(matches!(ask, RebaseAsk::ReadRange(ref p) if p == "ppp"));
    let (flow, ask) = rebase_step(&mut reg, flow, RebaseEvent::Range(Ok("aaa\nbbb\n".to_string())));
    assert!(matches!(ask, RebaseAsk::ReadSubjects));
    let subjects = vec!["First".to_string(), "Second".to_string()];
    let (flow, ask) = rebase_step(
        &mut reg,
        flow,
        RebaseEvent::Subjects { subjects, script_dir: "/tmp/x".to_string() },
    );
    match &ask {
        RebaseAsk::Run { parent, todo } => {
            assert_eq!(parent, "ppp");
            assert!(todo.starts_with("pick aaa First\npick bbb Second\n"));
        }
        _ => panic!("expected the rebase"),
    }
    reg.pin_history("h-1", "r1", vec![], false);
    reg.open("r2", TrustState::Trusted);
    reg.pin_history("h-2", "r2", vec![], false);
    let (_, ask) = rebase_step(&mut reg, flow, RebaseEvent::Ran(Ok(true)));
    assert!(matches!(ask, RebaseAsk::Done(Ok(()))));
    // The write moved the version on and dropped the repository's walks.
    assert_eq!(reg.session("r1").unwrap().version, 1);
    assert!(reg.pinned_history("h-1").is_none());
    assert!(reg.pinned_history("h-2").is_some());
    // The token was spent.
    assert!(reg
        .confirmation_consume("r1", 0, "history_rebase_interactive", &["aaa".to_string()], &token, 5)
        .is_err());
}

#[test]
fn interactive_rebase_refusals() {
    let mut reg = RepoRegistry::new();
    reg.open("r1", TrustState::Trusted);
    let plan = vec![entry("aaa", "pick", None)];
    let (flow, _) = rebase_begin(&reg, rebase_request("no-such-token", plan));
    let (flow, _) = rebase_step(&mut reg, flow, ok());
    let (flow, _) = rebase_step(&mut reg, flow, ok());
    let (flow, _) = rebase_step(&mut reg, flow, ok());
    let (_, ask) = rebase_step(&mut reg, flow, RebaseEvent::Clean { result: Ok(()), now: 5 });
    match ask {
        RebaseAsk::Done(Err(e)) => {
            assert_eq!(e.message, "Confirmation is missing, expired or does not match; confirm again")
        }
        _ => panic!("expected a refused confirmation"),
    }
    let (token, _) = reg.confirmation_issue("r1", 0, "history_rebase_interactive", &["aaa".to_string()], 100);
    let plan = vec![entry("bbb", "pick", None)];
    let (flow, _) = rebase_begin(&reg, rebase_request(&token, plan));
    let (flow, _) = rebase_step(&mut reg, flow, ok());
    let (flow, _) = rebase_step(&mut reg, flow, ok());
    let (flow, _) = rebase_step(&mut reg, flow, ok());
    let (_, ask) = rebase_step(&mut reg, flow, RebaseEvent::Clean { result: Ok(()), now: 5 });
    match ask {
        RebaseAsk::Done(Err(e)) => assert_eq!(e.message, "The rebase plan must start at the selected commit"),
        _ => panic!("expected a refused plan"),
    }
    // The shape check came first: the token is still there.
    let plan = vec![entry("aaa", "drop", None)];
    let (flow, _) = rebase_begin(&reg, rebase_request(&token, plan));
    let (flow, _) = rebase_step(&mut reg, flow, ok());
    let (flow, _) = rebase_step(&mut reg, flow, ok());
    let (flow, _) = rebase_step(&mut reg, flow, ok());
    let (flow, _) = rebase_step(&mut reg, flow, RebaseEvent::Clean { result: Ok(()), now: 5 });
    let (_, ask) = rebase_step(&mut reg, flow, ok());
    match ask {
        RebaseAsk::Done(Err(e)) => assert_eq!(e.message, "Dropping every commit would delete the branch"),
        _ => panic!("expected a refused plan"),
    }
    let mut reg = RepoRegistry::new();
    reg.open("r1", TrustState::ReadOnly);
    let (_, ask) = rebase_begin(&reg, rebase_request("t", vec![]));
    match ask {
        RebaseAsk::Done(Err(e)) => assert_eq!(e.message, "Trust this repository to rebase"),
        _ => panic!("expected a trust error"),
    }
}

fn connect_request(remote: Option<&str>) -> BitbucketConnectRequest {
    BitbucketConnectRequest {
        request_id: "req".to_string(),
        repo_id: "r1".to_string(),
        expected_version: 0,
        remote: remote.map(|s| s.to_string()),
        api_token: " tok ".to_string(),
    }
}

#[test]
fn bitbucket_connect_saves_through_the_helper() {
    let mut reg = RepoRegistry::new();
    reg.open("r1", TrustState::Trusted);
    let (flow, ask) = connect_begin(&reg, &connect_request(None));
    assert!(matches!(ask, ConnectAsk::DefaultRemote));
    let (flow, ask) = connect_step(flow, ConnectEvent::DefaultRemote(Ok("origin".to_string())));
    assert!(matches!(ask, ConnectAsk::RemoteUrl(ref n) if n == "origin"));
    let url = "https://alice@bitbucket.org/acme/widgets.git".to_string();
    let (flow, ask) = connect_step(flow, ConnectEvent::RemoteUrl(Ok(url)));
    assert!(matches!(ask, ConnectAsk::ReadHelper));
    let (flow, ask) = connect_step(flow, ConnectEvent::Helper(Some((true, "store\n".to_string()))));
    match &ask {
        ConnectAsk::Approve(bytes) => {
            let text = String::from_utf8(bytes.clone()).unwrap();
            assert!(text.starts_with("protocol=https\nhost=bitbucket.org\n"));
            assert!(text.contains("password=tok\n"));
        }
        _ => panic!("expected the approval"),
    }
    let (_, ask) = connect_step(flow, ConnectEvent::Approved(Some(true)));
    match ask {
        ConnectAsk::Done(Ok(c)) => {
            assert_eq!(c.remote_name, "origin");
            assert_eq!(c.username, "alice");
            assert!(c.credential_saved);
        }
        _ => panic!("expected a saved credential"),
    }
}

#[test]
fn bitbucket_connect_refusals() {
    let mut reg = RepoRegistry::new();
    reg.open("r1", TrustState::Trusted);
    let (flow, _) = connect_begin(&reg, &connect_request(Some("origin")));
    let (_, ask) = connect_step(flow, ConnectEvent::RemoteUrl(Ok("git@bitbucket.org:acme/w.git".to_string())));
    match ask {
        ConnectAsk::Done(Err(e)) => assert_eq!(e.code, ErrorCode::UNSUPPORTED),
        _ => panic!("expected an SSH remote to be refused"),
    }
    let (flow, _) = connect_begin(&reg, &connect_request(Some("origin")));
    let (flow, _) = connect_step(flow, ConnectEvent::RemoteUrl(Ok("https://bitbucket.org/acme/w".to_string())));
    let (_, ask) = connect_step(flow, ConnectEvent::Helper(Some((true, "\n".to_string()))));
    match ask {
        ConnectAsk::Done(Err(e)) => assert_eq!(e.recovery, RecoveryAction::ConfigureGit),
        _ => panic!("expected a missing helper"),
    }
    let (flow, _) = connect_begin(&reg, &connect_request(Some("origin")));
    let (flow, _) = connect_step(flow, ConnectEvent::RemoteUrl(Ok("https://bitbucket.org/acme/w".to_string())));
    let (flow, _) = connect_step(flow, ConnectEvent::Helper(Some((true, "store".to_string()))));
    let (_, ask) = connect_step(flow, ConnectEvent::Approved(Some(false)));
    match ask {
        ConnectAsk::Done(Err(e)) => assert_eq!(e.message, "Git credential helper rejected the Bitbucket token"),
        _ => panic!("expected a rejection"),
    }
    let mut reg = RepoRegistry::new();
    reg.open("r1", TrustState::ReadOnly);
    let (_, ask) = connect_begin(&reg, &connect_request(None));
    match ask {
        ConnectAsk::Done(Err(e)) => assert_eq!(e.message, "Trust this repository to save a Bitbucket credential"),
        _ => panic!("expected a trust error"),
    }
}

fn session() -> SessionInfo {
    SessionInfo { trust: TrustState::Trusted, version: 4, object_format: "sha1".to_string() }
}

#[test]
fn merge_commit_records_the_merge_and_rolls_back_failures() {
    let mut reg = RepoRegistry::new();
    reg.open("r1", TrustState::Trusted);
    let (flow, ask) = merge_commit_begin(Some(&session()), 4, "r1", "0123456789abcdef");
    assert!(matches!(ask, CommitMergeAsk::CheckOid(_)));
    let (flow, _) = merge_commit_step(&mut reg, flow, CommitMergeEvent::Checked(Ok(())));
    let (flow, ask) = merge_commit_step(&mut reg, flow, CommitMergeEvent::Checked(Ok(())));
    assert!(matches!(ask, CommitMergeAsk::ReadHeadBranch));
    let (flow, _) = merge_commit_step(&mut reg, flow, CommitMergeEvent::HeadBranch(Ok("main".to_string())));
    let (flow, ask) = merge_commit_step(&mut reg, flow, CommitMergeEvent::HeadOid(Ok("ffff".to_string())));
    assert!(matches!(ask, CommitMergeAsk::CheckClean(_)));
    let (flow, _) = merge_commit_step(&mut reg, flow, CommitMergeEvent::Checked(Ok(())));
    let (flow, _) = merge_commit_step(&mut reg, flow, CommitMergeEvent::MergeBase(Ok(true)));
    assert!(reg.session("r1").unwrap().merge.is_none());
    let (flow, ask) = merge_commit_step(&mut reg, flow, CommitMergeEvent::Ancestor(Ok(false)));
    match &ask {
        CommitMergeAsk::Merge { record, oid } => {
            assert_eq!(oid, "0123456789abcdef");
            assert_eq!(record.source_label, "commit 0123456");
            assert_eq!(record.pre_head, "ffff");
            assert_eq!(record.current_label, "main");
        }
        _ => panic!("expected the merge"),
    }
    let s = reg.session("r1").unwrap();
    assert_eq!(s.state, RepoState::Merging);
    assert_eq!(s.merge.as_ref().unwrap().source_label, "commit 0123456");
    let (flow, _) = merge_commit_step(&mut reg, flow, CommitMergeEvent::Merged(Ok(false)));
    let (flow, ask) = merge_commit_step(&mut reg, flow, CommitMergeEvent::Unmerged(false));
    assert!(matches!(ask, CommitMergeAsk::Abort));
    let (_, ask) = merge_commit_step(&mut reg, flow, CommitMergeEvent::Aborted(Ok((true, false))));
    match ask {
        CommitMergeAsk::Done(StartOutcome::Failed { error, clear_record }) => {
            assert!(clear_record);
            assert_eq!(error.message, "Git could not merge the commit");
        }
        _ => panic!("expected a rolled back failure"),
    }
    let s = reg.session("r1").unwrap();
    assert_eq!(s.state, RepoState::Normal);
    assert!(s.merge.is_none());
    assert_eq!(s.version, 1);
}

#[test]
fn merge_commit_of_head_is_up_to_date() {
    let mut reg = RepoRegistry::new();
    reg.open("r1", TrustState::Trusted);
    let (flow, _) = merge_commit_begin(Some(&session()), 4, "r1", "abc");
    let (flow, _) = merge_commit_step(&mut reg, flow, CommitMergeEvent::Checked(Ok(())));
    let (flow, _) = merge_commit_step(&mut reg, flow, CommitMergeEvent::Checked(Ok(())));
    let (flow, _) = merge_commit_step(&mut reg, flow, CommitMergeEvent::HeadBranch(Ok("main".to_string())));
    let (flow, _) = merge_commit_step(&mut reg, flow, CommitMergeEvent::HeadOid(Ok("abc".to_string())));
    let (_, ask) = merge_commit_step(&mut reg, flow, CommitMergeEvent::Checked(Ok(())));
    assert!(matches!(ask, CommitMergeAsk::Done(StartOutcome::UpToDate)));
    // Moved on once, then once more by the fresh snapshot.
    assert_eq!(reg.session("r1").unwrap().version, 2);
    let (_, ask) = merge_commit_begin(Some(&session()), 3, "r1", "abc");
    match ask {
        CommitMergeAsk::Done(StartOutcome::Failed { error, .. }) => assert_eq!(error.code, ErrorCode::STALE_STATE),
        _ => panic!("expected a stale version"),
    }
}

#[test]
fn remote_job_runs_logs_and_bumps_the_version() {
    let mut jobs = JobRegistry::new();
    let mut reg = RepoRegistry::new();
    reg.open("r1", TrustState::Trusted);
    let argv = vec!["fetch".to_string(), "--prune".to_string()];
    let (job, fresh) = remote_job_register(&mut jobs, "r1", "req-1", "fetch", &argv, "Fetch origin").unwrap();
    assert!(fresh);
    let (again, fresh) = remote_job_register(&mut jobs, "r1", "req-1", "fetch", &argv, "Fetch origin").unwrap();
    assert!(!fresh);
    assert_eq!(again.operation_id, job.operation_id);
    let other = vec!["fetch".to_string()];
    assert!(remote_job_register(&mut jobs, "r1", "req-1", "fetch", &other, "Fetch origin").is_err());
    assert_eq!(remote_job_step(&mut jobs, &mut reg, &job, RemoteEvent::Begin), RemoteAsk::Run);
    assert_eq!(jobs.job_get(&job.operation_id).unwrap().state, OperationState::Running);
    let ev = RemoteEvent::Progress { percent: 40, stage: "Receiving objects".to_string() };
    assert_eq!(remote_job_step(&mut jobs, &mut reg, &job, ev), RemoteAsk::Continue);
    assert_eq!(jobs.job_get(&job.operation_id).unwrap().progress, Some(40));
    assert!(jobs.job_request_cancel(&job.operation_id));
    assert_eq!(remote_job_step(&mut jobs, &mut reg, &job, RemoteEvent::Tick), RemoteAsk::Cancel);
    let done = RemoteEvent::Finished { outcome: JobOutcome::Succeeded, now_ms: 5_000 };
    assert_eq!(remote_job_step(&mut jobs, &mut reg, &job, done), RemoteAsk::Done);
    assert_eq!(jobs.job_get(&job.operation_id).unwrap().state, OperationState::Succeeded);
    let s = reg.session("r1").unwrap();
    assert_eq!(s.version, 1);
    assert_eq!(s.last_fetch, Some(5));
}

#[test]
fn failed_remote_job_keeps_the_version() {
    let mut jobs = JobRegistry::new();
    let mut reg = RepoRegistry::new();
    reg.open("r1", TrustState::Trusted);
    let argv = vec!["push".to_string()];
    let (job, _) = remote_job_register(&mut jobs, "r1", "req-2", "push", &argv, "Push").unwrap();
    remote_job_step(&mut jobs, &mut reg, &job, RemoteEvent::Begin);
    let e = AppError::new(ErrorCode::NETWORK_ERROR, "down".to_string(), RecoveryAction::Refresh, true);
    let done = RemoteEvent::Finished { outcome: JobOutcome::Failed(e), now_ms: 9 };
    assert_eq!(remote_job_step(&mut jobs, &mut reg, &job, done), RemoteAsk::Done);
    let rec = jobs.job_get(&job.operation_id).unwrap();
    assert_eq!(rec.state, OperationState::Failed);
    assert_eq!(rec.error_code.as_deref(), Some("NETWORK_ERROR"));
    assert_eq!(reg.session("r1").unwrap().version, 0);
}

fn out(stdout: &str) -> GitOut {
    GitOut { success: true, stdout: stdout.to_string() }
}

#[test]
fn merge_start_and_complete_keep_the_merge_record() {
    let mut reg = RepoRegistry::new();
    reg.open("r1", TrustState::Trusted);
    let (flow, ask) = merge_start_begin(Some(&session()), 4, "r1", false, "refs/heads/feature", "hhhh");
    assert!(matches!(ask, StartAsk::ReadHeadBranch));
    let (flow, _) = merge_start_step(&mut reg, flow, StartEvent::HeadBranch(Ok(out("main\n"))));
    let (flow, _) = merge_start_step(&mut reg, flow, StartEvent::HeadOid(Ok(out("hhhh\n"))));
    let (flow, _) = merge_start_step(&mut reg, flow, StartEvent::TrackedClean(Ok(true)));
    let (flow, ask) = merge_start_step(&mut reg, flow, StartEvent::Refs(Ok(out("refs/heads/main\nrefs/heads/feature\n"))));
    assert!(matches!(ask, StartAsk::Resolve(ref r) if r == "refs/heads/feature^{commit}"));
    let (flow, _) = merge_start_step(&mut reg, flow, StartEvent::Resolved(Ok(out("ssss\n"))));
    let (flow, _) = merge_start_step(&mut reg, flow, StartEvent::MergeBase(Ok(true)));
    let (flow, ask) = merge_start_step(&mut reg, flow, StartEvent::Ancestor(Ok(false)));
    assert!(matches!(ask, StartAsk::Merge { .. }));
    let s = reg.session("r1").unwrap();
    assert_eq!(s.state, RepoState::Merging);
    assert_eq!(s.merge.as_ref().unwrap().source_label, "feature");
    let (_, ask) = merge_start_step(&mut reg, flow, StartEvent::Merged(Ok(true)));
    assert!(matches!(ask, StartAsk::Done(StartOutcome::Started { conflicted: false })));
    assert!(reg.session("r1").unwrap().merge.is_some());
    assert_eq!(reg.session("r1").unwrap().version, 1);

    let (flow, ask) = merge_complete_begin(Some(&session()), 4, "r1", true, "Merge feature", "", true, "hhhh");
    assert!(matches!(ask, CompleteAsk::ReadHeadOid));
    let (flow, _) = merge_complete_step(&mut reg, flow, CompleteEvent::HeadOid(Ok(out("hhhh"))));
    let (flow, _) = merge_complete_step(&mut reg, flow, CompleteEvent::Unmerged(Ok(false)));
    let id = (Some("Ada".to_string()), Some("ada@x".to_string()));
    let (flow, _) = merge_complete_step(&mut reg, flow, CompleteEvent::Identity(Ok(id)));
    let (flow, _) = merge_complete_step(&mut reg, flow, CompleteEvent::Committed(Ok("mmmm".to_string())));
    let (_, ask) = merge_complete_step(&mut reg, flow, CompleteEvent::Parents(Ok(out("mmmm hhhh ssss\n"))));
    assert!(matches!(ask, CompleteAsk::Done(Ok(ref oid)) if oid == "mmmm"));
    let s = reg.session("r1").unwrap();
    assert_eq!(s.state, RepoState::Normal);
    assert!(s.merge.is_none());
    assert_eq!(s.version, 2);
}

#[test]
fn commit_moves_the_version_on() {
    let mut reg = RepoRegistry::new();
    reg.open("r1", TrustState::Trusted);
    let info = SessionInfo { trust: TrustState::Trusted, version: 0, object_format: "sha1".to_string() };
    let (flow, ask) = commit_begin(Some(&info), 0, "r1", " Fix it ", "");
    assert!(matches!(ask, CommitAsk::ReadUnmerged));
    let (flow, _) = commit_step(&mut reg, flow, CommitEvent::Unmerged(Ok(false)));
    let (flow, _) = commit_step(&mut reg, flow, CommitEvent::IndexEmpty(Ok(false)));
    let id = (Some("Ada".to_string()), Some("ada@x".to_string()));
    let (flow, ask) = commit_step(&mut reg, flow, CommitEvent::Identity(Ok(id)));
    assert!(matches!(ask, CommitAsk::CommitStaged(_)));
    assert_eq!(reg.session("r1").unwrap().version, 0);
    let (_, ask) = commit_step(&mut reg, flow, CommitEvent::Committed(Ok("c0ffee".to_string())));
    assert!(matches!(ask, CommitAsk::Done(Ok(ref oid)) if oid == "c0ffee"));
    assert_eq!(reg.session("r1").unwrap().version, 1);
}

#[test]
fn pinned_history_walks_are_found_and_dropped_per_repository() {
    let mut reg = RepoRegistry::new();
    reg.pin_history("a", "r1", vec![], true);
    reg.pin_history("b", "r2", vec![], false);
    reg.pin_history("c", "r1", vec![], false);
    assert!(reg.pinned_history("a").unwrap().truncated);
    reg.invalidate_history("r1");
    assert!(reg.pinned_history("a").is_none());
    assert!(reg.pinned_history("c").is_none());
    assert_eq!(reg.pinned_history("b").unwrap().repo_id, "r2");
}
