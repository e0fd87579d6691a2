//! Fetch, pull and push as background jobs, the Bitbucket credential
//! flow, pull-request creation, and the remote status line.
//!
//! Remote work runs as a job: the command validates, registers a record
//! (request ids dedup double submits) and hands Git an argument vector
//! that never forces, never rebases and never carries a secret. Pull is
//! fast-forward only.

use vstd::prelude::*;
use crate::text::{string_views};
use crate::civil::{
    civil_from_days, date_before, day_number, iso_text, lemma_date_order, lemma_day_number_injective,
    lemma_four_digit_year, lemma_iso_text_order, month_days, padded, text_before, valid_date,
};
use crate::domain::{BitbucketConnectionResult, RemoteStatus, UpstreamInfo};
use crate::error::{bad_request_str, is_error, AppError, ErrorCode, RecoveryAction, RequestId};
use crate::jobs::{code_name, error_code_name, OperationRecord, OperationState};
use crate::lines::{lines_of, lines_vec, view_lines};
use crate::remote::{check_remote_name, remote_name_ok, short_oid, username_override, with_username_override};
use crate::text::{
    chars_of, concat2, concat3, has_control, str_eq, string_lit, string_of, strip_prefix, strip_prefix_vec,
    trim, trim_str, trim_ws, utf8_len, utf8_len_exceeds,
};

verus! {

#[derive(Debug)]
pub struct RemoteContext {
    pub request_id: RequestId,
    pub repo_id: String,
}

#[derive(Debug)]
pub struct FetchRequest {
    pub request_id: RequestId,
    pub repo_id: String,
    pub expected_version: u64,
    pub remote: Option<String>,
}

#[derive(Debug)]
pub struct PullRequest {
    pub request_id: RequestId,
    pub repo_id: String,
    pub expected_version: u64,
}

#[derive(Debug)]
pub struct PushRequest {
    pub request_id: RequestId,
    pub repo_id: String,
    pub expected_version: u64,
    pub remote: Option<String>,
    pub set_upstream: bool,
}

/// Secret-bearing request: deliberately without `Debug`, so incidental
/// logging cannot print the token.
pub struct BitbucketConnectRequest {
    pub request_id: RequestId,
    pub repo_id: String,
    pub expected_version: u64,
    pub remote: Option<String>,
    pub api_token: String,
}

#[derive(Debug)]
pub struct LogRequest {
    pub request_id: RequestId,
    pub repo_id: String,
    pub cursor: u64,
}

#[derive(Debug)]
pub struct PullRequestCreateRequest {
    pub request_id: RequestId,
    pub repo_id: String,
    pub expected_version: u64,
    pub remote: Option<String>,
    pub source_branch: String,
    pub target_branch: String,
    pub title: String,
    pub description: String,
}

#[derive(Debug, Clone, PartialEq, Eq)]
pub struct PullRequestResult {
    pub provider: String,
    pub url: String,
    pub reference: String,
}

// ---------------------------------------------------------------------------
// Timestamps
// ---------------------------------------------------------------------------

/// `secs` since the epoch as ISO-8601 UTC (`2026-09-22T10:00:00Z`): the
/// calendar date of its day and the time within that day.
pub open spec fn iso8601_of(secs: u64, r: Seq<char>) -> bool {
    let t = secs % 86400;
    exists|y: int, m: int, d: int|
        valid_date(y, m, d) && #[trigger] day_number(y, m, d) == secs / 86400 && r == iso_text(
            y as nat,
            m as nat,
            d as nat,
            (t / 3600) as nat,
            ((t % 3600) / 60) as nat,
            (t % 60) as nat,
        )
}

pub fn epoch_to_iso8601(secs: u64) -> (r: String)
    ensures
        iso8601_of(secs, r@),
{
    let days = secs / 86400;
    let time = secs % 86400;
    let (year, month, day) = civil_from_days(days);
    let mut out = padded(year, 4);
    out.append("-");
    out.append(padded(month, 2).as_str());
    out.append("-");
    out.append(padded(day, 2).as_str());
    out.append("T");
    out.append(padded(time / 3600, 2).as_str());
    out.append(":");
    out.append(padded((time % 3600) / 60, 2).as_str());
    out.append(":");
    out.append(padded(time % 60, 2).as_str());
    out.append("Z");
    assert(day_number(year as int, month as int, day as int) == secs / 86400);
    assert(out@ =~= iso_text(
        year as nat,
        month as nat,
        day as nat,
        (time / 3600) as nat,
        ((time % 3600) / 60) as nat,
        (time % 60) as nat,
    ));
    out
}

/// Timestamps up to 9999-12-31T23:59:59Z print in their own order: a later
/// second gives a text that sorts later.
pub proof fn lemma_iso8601_sorts(s1: u64, s2: u64, r1: Seq<char>, r2: Seq<char>)
    requires
        s1 < s2,
        s2 <= 253402300799,
        iso8601_of(s1, r1),
        iso8601_of(s2, r2),
    ensures
        text_before(r1, r2),
{
    let t1 = s1 % 86400;
    let t2 = s2 % 86400;
    let (y1, m1, d1) = choose|y: int, m: int, d: int|
        valid_date(y, m, d) && #[trigger] day_number(y, m, d) == s1 / 86400 && r1 == iso_text(
            y as nat,
            m as nat,
            d as nat,
            (t1 / 3600) as nat,
            ((t1 % 3600) / 60) as nat,
            (t1 % 60) as nat,
        );
    let (y2, m2, d2) = choose|y: int, m: int, d: int|
        valid_date(y, m, d) && #[trigger] day_number(y, m, d) == s2 / 86400 && r2 == iso_text(
            y as nat,
            m as nat,
            d as nat,
            (t2 / 3600) as nat,
            ((t2 % 3600) / 60) as nat,
            (t2 % 60) as nat,
        );
    assert(s1 / 86400 <= s2 / 86400 && s2 / 86400 <= 2932896);
    lemma_four_digit_year(y1, m1, d1);
    lemma_four_digit_year(y2, m2, d2);
    assert(month_days(y1, m1) <= 31 && month_days(y2, m2) <= 31);
    let h1 = t1 / 3600;
    let h2 = t2 / 3600;
    let n1 = (t1 % 3600) / 60;
    let n2 = (t2 % 3600) / 60;
    let c1 = t1 % 60;
    let c2 = t2 % 60;
    assert(t1 == 3600 * h1 + 60 * n1 + c1 && h1 < 24 && n1 < 60 && c1 < 60);
    assert(t2 == 3600 * h2 + 60 * n2 + c2 && h2 < 24 && n2 < 60 && c2 < 60);
    if s1 / 86400 == s2 / 86400 {
        lemma_day_number_injective(y1, m1, d1, y2, m2, d2);
        assert(t1 < t2);
    } else {
        if !date_before(y1, m1, d1, y2, m2, d2) {
            if y1 == y2 && m1 == m2 && d1 == d2 {
                assert(false);
            } else {
                lemma_date_order(y2, m2, d2, y1, m1, d1);
            }
        }
    }
    lemma_iso_text_order(
        y1 as nat,
        m1 as nat,
        d1 as nat,
        h1 as nat,
        n1 as nat,
        c1 as nat,
        y2 as nat,
        m2 as nat,
        d2 as nat,
        h2 as nat,
        n2 as nat,
        c2 as nat,
    );
}

// ---------------------------------------------------------------------------
// Operation records
// ---------------------------------------------------------------------------

/// `xxxxxxxx-xxxx-4xxx-yxxx-xxxxxxxxxxxx` in lowercase hex, with the
/// version digit `4` and a variant digit `y` among `8`, `9`, `a`, `b`.
pub open spec fn uuid_shape(s: Seq<char>) -> bool {
    &&& s.len() == 36
    &&& s[14] == '4'
    &&& (s[19] == '8' || s[19] == '9' || s[19] == 'a' || s[19] == 'b')
    &&& forall|i: int|
        0 <= i < 36 ==> if i == 8 || i == 13 || i == 18 || i == 23 {
            s[i] == '-'
        } else {
            ('0' <= #[trigger] s[i] && s[i] <= '9') || ('a' <= s[i] && s[i] <= 'f')
        }
}

/// `uuid::Uuid::new_v4().to_string()`: a random version-4 UUID in its
/// hyphenated lowercase form (`Builder::from_random_bytes` sets the version
/// and the RFC 4122 variant bits). Claimed: only that shape; the value is
/// random.
#[verifier::external_body]
pub(crate) fn random_operation_id() -> (r: String)
    ensures
        uuid_shape(r@),
{
    uuid::Uuid::new_v4().to_string()
}

/// A fresh queued record for one remote job.
pub fn new_operation(repo_id: &str, request_id: &str, kind: &str) -> (r: OperationRecord)
    ensures
        uuid_shape(r.operation_id@),
        r.request_id@ == request_id@,
        r.repo_id matches Some(x) && x@ == repo_id@,
        r.kind@ == kind@,
        r.state == OperationState::Queued,
        r.stage@ == "queued"@,
        r.progress is None,
        r.error_code is None,
        r.error is None,
{
    OperationRecord {
        operation_id: random_operation_id(),
        request_id: string_lit(request_id),
        repo_id: Some(string_lit(repo_id)),
        kind: string_lit(kind),
        state: OperationState::Queued,
        stage: string_lit("queued"),
        progress: None,
        error_code: None,
        error: None,
    }
}

/// What a job's argument vector prints with `{:?}`.
pub uninterp spec fn argv_debug(argv: Seq<Seq<char>>) -> Seq<char>;

/// `format!("{argv:?}")`: the vector's `Debug` text. Claimed: the result is
/// the name `argv_debug` of the words.
#[verifier::external_body]
fn argv_debug_text(argv: &Vec<String>) -> (r: String)
    ensures
        r@ == argv_debug(string_views(argv@)),
{
    format!("{argv:?}")
}

/// `{kind}:{argv:?}`: what a double submit must repeat to be deduplicated.
pub fn job_fingerprint(kind: &str, argv: &Vec<String>) -> (r: String)
    ensures
        r@ == kind@ + ":"@ + argv_debug(string_views(argv@)),
{
    let d = argv_debug_text(argv);
    concat3(kind, ":", d.as_str())
}

/// How one remote child process ended.
#[derive(Debug, Clone, PartialEq, Eq)]
pub enum JobOutcome {
    Succeeded,
    Cancelled,
    Failed(AppError),
}

/// The terminal state and error a job records for its outcome.
pub fn job_terminal(outcome: JobOutcome) -> (r: (OperationState, Option<AppError>))
    ensures
        match outcome {
            JobOutcome::Succeeded => r == (OperationState::Succeeded, None::<AppError>),
            JobOutcome::Cancelled => r == (OperationState::Cancelled, None::<AppError>),
            JobOutcome::Failed(e) => r == (OperationState::Failed, Some(e)),
        },
{
    match outcome {
        JobOutcome::Succeeded => (OperationState::Succeeded, None),
        JobOutcome::Cancelled => (OperationState::Cancelled, None),
        JobOutcome::Failed(e) => (OperationState::Failed, Some(e)),
    }
}

/// The operation log's outcome word for a terminal state.
pub fn outcome_label(state: OperationState) -> (r: &'static str)
    ensures
        state == OperationState::Succeeded ==> r@ == "ok"@,
        state == OperationState::Cancelled ==> r@ == "cancelled"@,
        state != OperationState::Succeeded && state != OperationState::Cancelled ==> r@ == "error"@,
{
    match state {
        OperationState::Succeeded => "ok",
        OperationState::Cancelled => "cancelled",
        _ => "error",
    }
}

/// The error code the operation log records (the code's wire name).
pub fn log_error_code(error: &Option<AppError>) -> (r: Option<String>)
    ensures
        match error {
            Some(e) => r matches Some(c) && c@ == code_name(e.code),
            None => r is None,
        },
{
    match error {
        Some(e) => Some(string_lit(error_code_name(e.code))),
        None => None,
    }
}

// ---------------------------------------------------------------------------
// Remote child processes
// ---------------------------------------------------------------------------

/// What Git's stderr said went wrong with the network.
#[derive(Debug, Clone, Copy, PartialEq, Eq, Structural)]
pub enum NetworkFault {
    Offline,
    Auth,
    Other,
}

pub fn network_error(fault: NetworkFault) -> (e: AppError)
    ensures
        fault == NetworkFault::Offline ==> is_error(
            e,
            ErrorCode::OFFLINE,
            "Network is unreachable; check the connection and retry"@,
            RecoveryAction::RetryRead,
            true,
        ),
        fault == NetworkFault::Auth ==> is_error(
            e,
            ErrorCode::AUTH_REQUIRED,
            "Authentication was rejected. Refresh your HTTPS credentials or unlock your SSH key outside Octopus, then retry"@,
            RecoveryAction::Authenticate,
            false,
        ),
        fault == NetworkFault::Other ==> is_error(
            e,
            ErrorCode::GIT_ERROR,
            "The remote operation failed. Verify the remote and branch state, then retry"@,
            RecoveryAction::Refresh,
            true,
        ),
{
    match fault {
        NetworkFault::Offline => AppError::new(
            ErrorCode::OFFLINE,
            string_lit("Network is unreachable; check the connection and retry"),
            RecoveryAction::RetryRead,
            true,
        ),
        NetworkFault::Auth => AppError::new(
            ErrorCode::AUTH_REQUIRED,
            string_lit(
                "Authentication was rejected. Refresh your HTTPS credentials or unlock your SSH key outside Octopus, then retry",
            ),
            RecoveryAction::Authenticate,
            false,
        ),
        NetworkFault::Other => AppError::new(
            ErrorCode::GIT_ERROR,
            string_lit(
                "The remote operation failed. Verify the remote and branch state, then retry",
            ),
            RecoveryAction::Refresh,
            true,
        ),
    }
}

pub fn spawn_failed() -> (e: AppError)
    ensures
        is_error(
            e,
            ErrorCode::GIT_ERROR,
            "Git could not start the remote operation"@,
            RecoveryAction::ConfigureGit,
            false,
        ),
{
    AppError::new(
        ErrorCode::GIT_ERROR,
        string_lit("Git could not start the remote operation"),
        RecoveryAction::ConfigureGit,
        false,
    )
}

pub fn remote_timed_out() -> (e: AppError)
    ensures
        is_error(
            e,
            ErrorCode::TIMEOUT,
            "The remote operation timed out; check the connection and retry"@,
            RecoveryAction::RetryRead,
            true,
        ),
{
    AppError::new(
        ErrorCode::TIMEOUT,
        string_lit("The remote operation timed out; check the connection and retry"),
        RecoveryAction::RetryRead,
        true,
    )
}

/// Stderr is kept for classification until it reaches 4000 bytes.
pub fn buffer_stderr_line(buf: &mut String, line: &str)
    ensures
        utf8_len(old(buf)@) < 4000 ==> final(buf)@ == old(buf)@ + line@ + "\n"@,
        utf8_len(old(buf)@) >= 4000 ==> final(buf)@ == old(buf)@,
{
    if !crate::text::str_exceeds(buf.as_str(), 3999) {
        buf.append(line);
        buf.append("\n");
    }
}

/// The stage name of a `--progress` line: the text before its first `:`,
/// trimmed and lowercased.
pub fn progress_stage(line: &str) -> (r: String)
    ensures
        r@ == crate::history::unicode_lower(trim(crate::text::before_char(line@, ':'))),
{
    let v = chars_of(line);
    let head = crate::text::take_before(&v, ':');
    let t = trim_ws(&head);
    let s = string_of(t.as_slice());
    crate::history::to_lowercase(s.as_str())
}

// ---------------------------------------------------------------------------
// Remote names and URLs
// ---------------------------------------------------------------------------

/// `branch.{branch}.remote`.
pub fn branch_remote_key(branch: &str) -> (r: String)
    ensures
        r@ == "branch."@ + branch@ + ".remote"@,
{
    concat3("branch.", branch, ".remote")
}

/// `remote.{name}.url`.
pub fn remote_url_key(name: &str) -> (r: String)
    ensures
        r@ == "remote."@ + name@ + ".url"@,
{
    concat3("remote.", name, ".url")
}

/// The remote a branch is configured to track, if Git printed a non-blank
/// name.
pub fn branch_remote_of(success: bool, stdout: &str) -> (r: Option<Vec<char>>)
    ensures
        success && trim(stdout@).len() > 0 ==> (r matches Some(n) && n@ == trim(stdout@)),
        !(success && trim(stdout@).len() > 0) ==> r is None,
{
    if !success {
        return None;
    }
    let t = trim_str(stdout);
    if t.len() == 0 {
        return None;
    }
    Some(t)
}

pub fn remote_url_unreadable() -> (e: AppError)
    ensures
        is_error(
            e,
            ErrorCode::INVALID_ARGUMENT,
            "Cannot read the remote URL"@,
            RecoveryAction::InspectState,
            false,
        ),
{
    bad_request_str("Cannot read the remote URL")
}

/// The configured URL of a remote: the trimmed output, which must exist.
pub fn configured_url(success: bool, stdout: &str) -> (r: Result<Vec<char>, AppError>)
    ensures
        success && trim(stdout@).len() > 0 ==> (r matches Ok(u) && u@ == trim(stdout@)),
        !(success && trim(stdout@).len() > 0) ==> (r matches Err(e) && is_error(
            e,
            ErrorCode::INVALID_ARGUMENT,
            "Remote has no URL configured"@,
            RecoveryAction::InspectState,
            false,
        )),
{
    let raw = trim_str(stdout);
    if !success || raw.len() == 0 {
        return Err(bad_request_str("Remote has no URL configured"));
    }
    Ok(raw)
}

/// With no branch remote, `origin` is used when it has a URL.
pub fn origin_fallback(origin_configured: bool) -> (r: Result<String, AppError>)
    ensures
        origin_configured ==> (r matches Ok(n) && n@ == "origin"@),
        !origin_configured ==> (r matches Err(e) && is_error(
            e,
            ErrorCode::INVALID_ARGUMENT,
            "No upstream remote; configure one first"@,
            RecoveryAction::InspectState,
            false,
        )),
{
    if origin_configured {
        Ok(string_lit("origin"))
    } else {
        Err(bad_request_str("No upstream remote; configure one first"))
    }
}

// ---------------------------------------------------------------------------
// Fetch, pull, push
// ---------------------------------------------------------------------------

/// `fetch --progress <name>` (with the Bitbucket username override) and
/// the log summary `fetch <name> (<url>)`.
pub fn fetch_plan(name: &str, url: &str) -> (r: (Vec<String>, String))
    ensures
        ({
            let base = seq!["fetch"@, "--progress"@, name@];
            &&& string_views(r.0@) == username_override(url@) + base
            &&& r.1@ == "fetch "@ + name@ + " ("@ + url@ + ")"@
        }),
{
    let mut argv: Vec<String> = Vec::new();
    argv.push(string_lit("fetch"));
    argv.push(string_lit("--progress"));
    argv.push(string_lit(name));
    let ghost words = string_views(argv@);
    assert(words =~= seq!["fetch"@, "--progress"@, name@]);
    let argv = with_username_override(url, argv);
    let mut summary = concat3("fetch ", name, " (");
    summary.append(url);
    summary.append(")");
    (argv, summary)
}

/// Pulling needs a clean worktree: no autostash, no rebase.
pub fn check_pull_clean(staged: u64, unstaged: u64, conflicted: u64) -> (r: Result<(), AppError>)
    ensures
        r is Ok <==> staged == 0 && unstaged == 0 && conflicted == 0,
        r matches Err(e) ==> is_error(
            e,
            ErrorCode::DIRTY_WORKTREE,
            "Stash or commit your changes before pulling"@,
            RecoveryAction::InspectState,
            false,
        ),
{
    if staged != 0 || unstaged != 0 || conflicted != 0 {
        return Err(
            AppError::new(
                ErrorCode::DIRTY_WORKTREE,
                string_lit("Stash or commit your changes before pulling"),
                RecoveryAction::InspectState,
                false,
            ),
        );
    }
    Ok(())
}

/// `pull --ff-only --progress` (fast-forward only, whatever the config) and
/// its log summary.
pub fn pull_plan(remote: &str, url: &str) -> (r: (Vec<String>, String))
    ensures
        ({
            let base = seq!["pull"@, "--ff-only"@, "--progress"@];
            &&& string_views(r.0@) == username_override(url@) + base
            &&& r.1@ == "pull --ff-only "@ + remote@ + " ("@ + url@ + ")"@
        }),
{
    let mut argv: Vec<String> = Vec::new();
    argv.push(string_lit("pull"));
    argv.push(string_lit("--ff-only"));
    argv.push(string_lit("--progress"));
    let ghost words = string_views(argv@);
    assert(words =~= seq!["pull"@, "--ff-only"@, "--progress"@]);
    let argv = with_username_override(url, argv);
    let mut summary = concat3("pull --ff-only ", remote, " (");
    summary.append(url);
    summary.append(")");
    (argv, summary)
}

/// Which remote a push goes to.
#[derive(Debug, Clone, PartialEq, Eq)]
pub enum PushRemote {
    /// This remote, by name.
    Named(String),
    /// The default remote (branch remote, else `origin`).
    Default,
}

/// The requested remote (checked), else the branch's remote, else the
/// upstream's; with neither, only an explicit set-upstream push goes to
/// the default remote.
pub fn push_remote_choice(
    requested: Option<&str>,
    upstream_remote: Option<&str>,
    branch_remote: Option<&str>,
    set_upstream: bool,
) -> (r: Result<PushRemote, AppError>)
    ensures
        match requested {
            Some(n) => if remote_name_ok(n@) {
                r matches Ok(PushRemote::Named(x)) && x@ == n@
            } else {
                r is Err
            },
            None => match upstream_remote {
                Some(u) => r matches Ok(PushRemote::Named(x)) && x@ == (match branch_remote {
                    Some(b) => b@,
                    None => u@,
                }),
                None => if set_upstream {
                    r == Ok::<PushRemote, AppError>(PushRemote::Default)
                } else {
                    r matches Err(e) && is_error(
                        e,
                        ErrorCode::INVALID_ARGUMENT,
                        "No upstream configured; choose a remote to set it explicitly"@,
                        RecoveryAction::InspectState,
                        false,
                    )
                },
            },
        },
{
    match requested {
        Some(n) => {
            check_remote_name(n)?;
            Ok(PushRemote::Named(string_lit(n)))
        },
        None => match upstream_remote {
            Some(u) => Ok(
                PushRemote::Named(
                    match branch_remote {
                        Some(b) => string_lit(b),
                        None => string_lit(u),
                    },
                ),
            ),
            None => {
                if set_upstream {
                    Ok(PushRemote::Default)
                } else {
                    Err(
                        bad_request_str(
                            "No upstream configured; choose a remote to set it explicitly",
                        ),
                    )
                }
            },
        },
    }
}

/// A detached HEAD has no branch to push.
pub fn push_branch(success: bool, stdout: &str) -> (r: Result<Vec<char>, AppError>)
    ensures
        success ==> (r matches Ok(b) && b@ == trim(stdout@)),
        !success ==> (r matches Err(e) && is_error(
            e,
            ErrorCode::INVALID_ARGUMENT,
            "Detached HEAD cannot be pushed; create a branch first"@,
            RecoveryAction::InspectState,
            false,
        )),
{
    if !success {
        return Err(bad_request_str("Detached HEAD cannot be pushed; create a branch first"));
    }
    Ok(trim_str(stdout))
}

/// The push words before the Bitbucket override: a plain push, or, for a
/// first push that sets the upstream, `--set-upstream <name> HEAD:<branch>`.
/// Never `--force`, `--mirror` or `--all`.
pub open spec fn push_words(name: Seq<char>, branch: Seq<char>, set_upstream_now: bool) -> Seq<Seq<char>> {
    if set_upstream_now {
        seq!["push"@, "--progress"@, "--set-upstream"@, name, "HEAD:"@ + branch]
    } else {
        seq!["push"@, "--progress"@]
    }
}

pub fn push_plan(
    name: &str,
    branch: &str,
    url: &str,
    source_oid: &str,
    has_upstream: bool,
    set_upstream: bool,
) -> (r: (Vec<String>, String))
    ensures
        ({
            let now = !has_upstream && set_upstream;
            let base = push_words(name@, branch@, now);
            let short = source_oid@.take(if source_oid@.len() < 12 {
                source_oid@.len() as int
            } else {
                12
            });
            &&& string_views(r.0@) == username_override(url@) + base
            &&& r.1@ == (if now {
                "push -u "@ + name@ + " HEAD:"@ + branch@ + " ("@ + url@ + " "@ + short + ")"@
            } else {
                "push "@ + name@ + " ("@ + url@ + " "@ + short + ")"@
            })
        }),
{
    let now = !has_upstream && set_upstream;
    let short = short_oid(source_oid);
    let mut argv: Vec<String> = Vec::new();
    argv.push(string_lit("push"));
    argv.push(string_lit("--progress"));
    let mut summary;
    if now {
        argv.push(string_lit("--set-upstream"));
        argv.push(string_lit(name));
        argv.push(concat2("HEAD:", branch));
        summary = concat3("push -u ", name, " HEAD:");
        summary.append(branch);
    } else {
        summary = concat2("push ", name);
    }
    summary.append(" (");
    summary.append(url);
    summary.append(" ");
    summary.append(short.as_str());
    summary.append(")");
    let ghost words = string_views(argv@);
    assert(words =~= push_words(name@, branch@, now));
    let argv = with_username_override(url, argv);
    (argv, summary)
}

// ---------------------------------------------------------------------------
// Bitbucket credentials
// ---------------------------------------------------------------------------

pub fn not_bitbucket_https() -> (e: AppError)
    ensures
        is_error(
            e,
            ErrorCode::UNSUPPORTED,
            "Bitbucket token integration requires an HTTPS bitbucket.org remote; SSH remotes use the SSH agent"@,
            RecoveryAction::InspectState,
            false,
        ),
{
    AppError::new(
        ErrorCode::UNSUPPORTED,
        string_lit(
            "Bitbucket token integration requires an HTTPS bitbucket.org remote; SSH remotes use the SSH agent",
        ),
        RecoveryAction::InspectState,
        false,
    )
}

/// A credential helper is configured when Git printed a non-blank line.
pub open spec fn helper_listed(stdout: Seq<char>) -> bool {
    exists|i: int| 0 <= i < lines_of(stdout).len() && trim(#[trigger] lines_of(stdout)[i]).len() > 0
}

pub fn check_credential_helper(success: bool, stdout: &str) -> (r: Result<(), AppError>)
    ensures
        r is Ok <==> success && helper_listed(stdout@),
        r matches Err(e) ==> is_error(
            e,
            ErrorCode::UNSUPPORTED,
            "No Git credential helper is configured for Bitbucket. Configure a secure Git credential helper, then retry"@,
            RecoveryAction::ConfigureGit,
            false,
        ),
{
    let ls = lines_vec(&chars_of(stdout));
    let mut any = false;
    let mut i: usize = 0;
    while i < ls.len()
        invariant
            i <= ls@.len(),
            view_lines(ls@) == lines_of(stdout@),
            any == exists|k: int| 0 <= k < i && trim(#[trigger] lines_of(stdout@)[k]).len() > 0,
        decreases ls.len() - i,
    {
        let t = trim_ws(&ls[i]);
        assert(lines_of(stdout@)[i as int] == ls@[i as int]@);
        if t.len() > 0 {
            any = true;
        }
        i += 1;
    }
    if !success || !any {
        return Err(
            AppError::new(
                ErrorCode::UNSUPPORTED,
                string_lit(
                    "No Git credential helper is configured for Bitbucket. Configure a secure Git credential helper, then retry",
                ),
                RecoveryAction::ConfigureGit,
                false,
            ),
        );
    }
    Ok(())
}

/// The helper could not be inspected, could not run, or refused the token.
pub fn helper_error(step: u8) -> (e: AppError)
    requires
        step < 3,
    ensures
        step == 0 ==> is_error(
            e,
            ErrorCode::IO_ERROR,
            "Octopus could not inspect the Git credential helper"@,
            RecoveryAction::ConfigureGit,
            false,
        ),
        step == 1 ==> is_error(
            e,
            ErrorCode::IO_ERROR,
            "Git credential helper could not save the Bitbucket token"@,
            RecoveryAction::ConfigureGit,
            false,
        ),
        step == 2 ==> is_error(
            e,
            ErrorCode::IO_ERROR,
            "Git credential helper rejected the Bitbucket token"@,
            RecoveryAction::ConfigureGit,
            false,
        ),
{
    AppError::new(
        ErrorCode::IO_ERROR,
        if step == 0 {
            string_lit("Octopus could not inspect the Git credential helper")
        } else if step == 1 {
            string_lit("Git credential helper could not save the Bitbucket token")
        } else {
            string_lit("Git credential helper rejected the Bitbucket token")
        },
        RecoveryAction::ConfigureGit,
        false,
    )
}

/// The reply of a saved Bitbucket credential.
pub fn bitbucket_connection(remote_name: String, username: String) -> (r: BitbucketConnectionResult)
    ensures
        r.remote_name == remote_name,
        r.username == username,
        r.credential_saved,
{
    BitbucketConnectionResult { remote_name, username, credential_saved: true }
}

// ---------------------------------------------------------------------------
// Pull requests
// ---------------------------------------------------------------------------

pub fn unsupported_pr_host() -> (e: AppError)
    ensures
        is_error(
            e,
            ErrorCode::UNSUPPORTED,
            "Pull requests support github.com, bitbucket.org and gitlab.com remotes"@,
            RecoveryAction::InspectState,
            false,
        ),
{
    AppError::new(
        ErrorCode::UNSUPPORTED,
        string_lit("Pull requests support github.com, bitbucket.org and gitlab.com remotes"),
        RecoveryAction::InspectState,
        false,
    )
}

/// A branch name for a pull request, trimmed: 1..=250 bytes without
/// control chars (Git's `check-ref-format --branch` comes after).
pub fn check_pr_branch_text(name: &str) -> (r: Result<Vec<char>, AppError>)
    ensures
        ({
            let t = trim(name@);
            if t.len() == 0 || utf8_len(t) > 250 || has_control(t) {
                r matches Err(e) && is_error(
                    e,
                    ErrorCode::INVALID_ARGUMENT,
                    "Branch name is empty or invalid"@,
                    RecoveryAction::InspectState,
                    false,
                )
            } else {
                r matches Ok(n) && n@ == t
            }
        }),
{
    let t = trim_str(name);
    if t.len() == 0 || utf8_len_exceeds(&t, 250) || crate::text::any_control(&t) {
        return Err(bad_request_str("Branch name is empty or invalid"));
    }
    Ok(t)
}

/// What `git check-ref-format --branch` said of a pull-request branch.
pub fn pr_branch_checked(ran: bool, success: bool) -> (r: Result<(), AppError>)
    ensures
        r is Ok <==> ran && success,
        !ran ==> (r matches Err(e) && is_error(
            e,
            ErrorCode::INVALID_ARGUMENT,
            "Could not validate the branch name"@,
            RecoveryAction::InspectState,
            false,
        )),
        ran && !success ==> (r matches Err(e) && is_error(
            e,
            ErrorCode::INVALID_ARGUMENT,
            "Branch name is not a valid Git branch name"@,
            RecoveryAction::InspectState,
            false,
        )),
{
    if !ran {
        return Err(bad_request_str("Could not validate the branch name"));
    }
    if !success {
        return Err(bad_request_str("Branch name is not a valid Git branch name"));
    }
    Ok(())
}

pub fn check_branches_differ(source: &str, target: &str) -> (r: Result<(), AppError>)
    ensures
        r is Ok <==> source@ != target@,
        r matches Err(e) ==> is_error(
            e,
            ErrorCode::INVALID_ARGUMENT,
            "Source and target branches must differ"@,
            RecoveryAction::InspectState,
            false,
        ),
{
    if str_eq(source, target) {
        return Err(bad_request_str("Source and target branches must differ"));
    }
    Ok(())
}

/// A blank description is sent empty; otherwise it is checked like the
/// title, up to 65536 bytes.
pub fn pr_description(description: &str) -> (r: Result<String, AppError>)
    ensures
        trim(description@).len() == 0 ==> (r matches Ok(d) && d@.len() == 0),
        trim(description@).len() > 0 ==> match crate::pull_request::pr_text_ok(description@, 65536) {
            true => r matches Ok(d) && d@ == trim(description@),
            false => r matches Err(e) && is_error(
                e,
                ErrorCode::INVALID_ARGUMENT,
                "Description"@ + " is empty or invalid"@,
                RecoveryAction::InspectState,
                false,
            ),
        },
{
    if trim_str(description).len() == 0 {
        return Ok(String::new());
    }
    crate::pull_request::check_pr_text(description, "Description", 65536)
}

/// `protocol=https\nhost=<host>\n\n`: the `git credential fill` query.
pub fn credential_query(host: &str) -> (r: String)
    ensures
        r@ == "protocol=https\nhost="@ + host@ + "\n\n"@,
{
    concat3("protocol=https\nhost=", host, "\n\n")
}

/// The username and password `git credential fill` printed: the trimmed
/// value of the last `username=` and `password=` lines.
pub open spec fn credential_scan(ls: Seq<Seq<char>>) -> (Seq<char>, Seq<char>)
    decreases ls.len(),
{
    if ls.len() == 0 {
        (Seq::empty(), Seq::empty())
    } else {
        let (u, p) = credential_scan(ls.drop_last());
        match strip_prefix(ls.last(), "username="@) {
            Some(v) => (trim(v), p),
            None => match strip_prefix(ls.last(), "password="@) {
                Some(v) => (u, trim(v)),
                None => (u, p),
            },
        }
    }
}

/// A usable credential: a password of 1..=4096 bytes and a username of at
/// most 1024 bytes, neither with control chars.
pub open spec fn credential_ok(u: Seq<char>, p: Seq<char>) -> bool {
    p.len() > 0 && utf8_len(p) <= 4096 && !has_control(p) && utf8_len(u) <= 1024 && !has_control(u)
}

pub fn no_saved_credential() -> (e: AppError)
    ensures
        is_error(
            e,
            ErrorCode::AUTH_REQUIRED,
            "No saved credential for this host. Save one first (Bitbucket: Connect in the push flow; GitHub/GitLab: store a token with your Git credential helper)."@,
            RecoveryAction::Authenticate,
            false,
        ),
{
    AppError::new(
        ErrorCode::AUTH_REQUIRED,
        string_lit(
            "No saved credential for this host. Save one first (Bitbucket: Connect in the push flow; GitHub/GitLab: store a token with your Git credential helper).",
        ),
        RecoveryAction::Authenticate,
        false,
    )
}

pub fn credential_timed_out() -> (e: AppError)
    ensures
        is_error(
            e,
            ErrorCode::TIMEOUT,
            "Reading the saved credential timed out"@,
            RecoveryAction::Refresh,
            true,
        ),
{
    AppError::new(
        ErrorCode::TIMEOUT,
        string_lit("Reading the saved credential timed out"),
        RecoveryAction::Refresh,
        true,
    )
}

pub fn parse_credential(success: bool, stdout: &str) -> (r: Result<(String, String), AppError>)
    ensures
        ({
            let c = credential_scan(lines_of(stdout@));
            if success && credential_ok(c.0, c.1) {
                r matches Ok(q) && q.0@ == c.0 && q.1@ == c.1
            } else {
                r matches Err(e) && is_error(
                    e,
                    ErrorCode::AUTH_REQUIRED,
                    "No saved credential for this host. Save one first (Bitbucket: Connect in the push flow; GitHub/GitLab: store a token with your Git credential helper)."@,
                    RecoveryAction::Authenticate,
                    false,
                )
            }
        }),
{
    if !success {
        return Err(no_saved_credential());
    }
    let ls = lines_vec(&chars_of(stdout));
    let ghost all = lines_of(stdout@);
    let up = chars_of("username=");
    let pp = chars_of("password=");
    let mut username: Vec<char> = Vec::new();
    let mut password: Vec<char> = Vec::new();
    let mut i: usize = 0;
    proof {
        assert(all.take(0) =~= Seq::<Seq<char>>::empty());
    }
    while i < ls.len()
        invariant
            i <= ls@.len(),
            view_lines(ls@) == all,
            up@ == "username="@,
            pp@ == "password="@,
            (username@, password@) == credential_scan(all.take(i as int)),
        decreases ls.len() - i,
    {
        proof {
            assert(all.take(i + 1).drop_last() =~= all.take(i as int));
            assert(all.take(i + 1).last() == ls@[i as int]@);
        }
        match strip_prefix_vec(&ls[i], &up) {
            Some(v) => {
                username = trim_ws(&v);
            },
            None => match strip_prefix_vec(&ls[i], &pp) {
                Some(v) => {
                    password = trim_ws(&v);
                },
                None => {},
            },
        }
        i += 1;
    }
    assert(all.take(ls@.len() as int) =~= all);
    if password.len() == 0 || utf8_len_exceeds(&password, 4096) || crate::text::any_control(
        &password,
    ) || utf8_len_exceeds(&username, 1024) || crate::text::any_control(&username) {
        return Err(no_saved_credential());
    }
    Ok((string_of(username.as_slice()), string_of(password.as_slice())))
}

/// The provider could not be reached, timed out, or its reply could not be
/// read.
pub fn provider_unreachable(timed_out: bool) -> (e: AppError)
    ensures
        timed_out ==> is_error(
            e,
            ErrorCode::TIMEOUT,
            "Provider request timed out"@,
            RecoveryAction::Refresh,
            false,
        ),
        !timed_out ==> is_error(
            e,
            ErrorCode::NETWORK_ERROR,
            "Could not reach the provider"@,
            RecoveryAction::Refresh,
            false,
        ),
{
    if timed_out {
        AppError::new(
            ErrorCode::TIMEOUT,
            string_lit("Provider request timed out"),
            RecoveryAction::Refresh,
            false,
        )
    } else {
        AppError::new(
            ErrorCode::NETWORK_ERROR,
            string_lit("Could not reach the provider"),
            RecoveryAction::Refresh,
            false,
        )
    }
}

pub fn provider_reply_unreadable() -> (e: AppError)
    ensures
        is_error(
            e,
            ErrorCode::NETWORK_ERROR,
            "Could not read the provider response"@,
            RecoveryAction::Refresh,
            false,
        ),
{
    AppError::new(
        ErrorCode::NETWORK_ERROR,
        string_lit("Could not read the provider response"),
        RecoveryAction::Refresh,
        false,
    )
}

/// The API base with trailing slashes removed (a test override).
pub fn api_base_override(base: &str) -> (r: String)
    ensures
        r@ == crate::text::trim_end_char(base@, '/'),
{
    let t = crate::text::trim_end_matches(&chars_of(base), '/');
    string_of(t.as_slice())
}

pub fn pull_request_result(provider: crate::remote::PrProvider, url: String, reference: String) -> (r:
    PullRequestResult)
    ensures
        r.provider@ == provider.spec_name(),
        r.url == url,
        r.reference == reference,
{
    PullRequestResult { provider: string_lit(provider.name()), url, reference }
}

/// The remote status line: the remote and its URL, the upstream with
/// ahead/behind counts, and the last fetch time.
pub fn remote_status_of(
    remote_name: Option<String>,
    url: Option<String>,
    upstream: Option<UpstreamInfo>,
    fetch_time: Option<u64>,
) -> (r: RemoteStatus)
    ensures
        r.remote_name == remote_name,
        r.url == url,
        match upstream {
            Some(u) => r.upstream_ref == Some(u.ref_id) && r.ahead == Some(u.ahead) && r.behind
                == Some(u.behind),
            None => r.upstream_ref is None && r.ahead is None && r.behind is None,
        },
        match fetch_time {
            Some(t) => r.last_fetch_at matches Some(s) && iso8601_of(t, s@),
            None => r.last_fetch_at is None,
        },
{
    let (upstream_ref, ahead, behind) = match upstream {
        Some(u) => (Some(u.ref_id), Some(u.ahead), Some(u.behind)),
        None => (None, None, None),
    };
    RemoteStatus {
        remote_name,
        url,
        upstream_ref,
        ahead,
        behind,
        last_fetch_at: match fetch_time {
            Some(t) => Some(epoch_to_iso8601(t)),
            None => None,
        },
    }
}

} // verus!
