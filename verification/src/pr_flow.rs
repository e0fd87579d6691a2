//! `pull_request_create` as a sequence of Git reads and one HTTP request.
//! The flow checks the request id and the remote name, asks for the
//! remote's URL and recognises the provider, checks both branch names
//! (their text here, their ref format with Git), the branches, title and
//! description, asks for the saved credential of the remote's host, and
//! then for one authenticated POST of the request body. The reply becomes
//! the pull request's URL and reference, or the error it stands for.

use vstd::prelude::*;
use crate::error::bad;
use crate::error::{check_request_id, is_error, request_id_ok, AppError, ErrorCode, RecoveryAction};
use crate::pull_request::{
    check_pr_text, endpoint_of, failure_message, http_error_is, json_str_at, json_u64_at,
    max_response_bytes, number_pointer, pr_endpoint, pr_http_error, pr_parse_response,
    pr_request_json, pr_text_ok, request_body_of, response_fields, url_pointer,
};
use crate::remote::{
    api_base_of, check_remote_name, detect_pr_provider, pr_coords_of, raw_url_host, remote_name_ok, url_host_of, PrCoords, PrProvider,
};
use crate::sync::{
    api_base_override, check_branches_differ, check_pr_branch_text, pr_branch_checked, pr_description,
    provider_reply_unreadable, provider_unreachable, pull_request_result, unsupported_pr_host,
    PullRequestCreateRequest, PullRequestResult,
};
use crate::text::{has_control, string_lit, trim, trim_end_char, utf8_len};

verus! {

/// The answer a pull-request flow waits for.
#[derive(Debug, Clone, Copy, PartialEq, Eq, Structural)]
pub enum PrWait {
    DefaultRemote,
    RemoteUrl,
    SourceRef,
    TargetRef,
    Credential,
    Reply,
    Nothing,
}

/// A pull request being created, with what it has learnt so far.
pub struct PrFlow {
    pub wait: PrWait,
    pub source_branch: String,
    pub target_branch: String,
    pub title: String,
    pub description: String,
    /// An API base that replaces the provider's (a test server).
    pub base_override: Option<String>,
    pub provider: PrProvider,
    pub api_base: String,
    pub namespace: String,
    pub repo: String,
    pub host: String,
    pub source: String,
    pub target: String,
}

/// Why the HTTP request produced no reply.
#[derive(Debug, Clone, Copy, PartialEq, Eq, Structural)]
pub enum SendFailure {
    TimedOut,
    Unreachable,
    /// A reply came but its body could not be read.
    Unreadable,
}

/// What the shell does next.
pub enum PrAsk {
    /// Find the remote of the current branch, or `origin`.
    DefaultRemote,
    /// Read `remote.<name>.url`.
    RemoteUrl(String),
    /// `git check-ref-format --branch <name>`.
    CheckRef(String),
    /// `git credential fill` for `https://<host>`.
    Credential(String),
    /// POST `payload` to `endpoint`, authenticated with `secret`
    /// (`PRIVATE-TOKEN` for GitLab, a bearer token otherwise).
    Send { endpoint: String, payload: String, provider: PrProvider, secret: String },
    Done(Result<PullRequestResult, AppError>),
}

/// What the shell found.
pub enum PrEvent {
    DefaultRemote(Result<String, AppError>),
    RemoteUrl(Result<String, AppError>),
    /// Whether Git ran, and whether the name is a valid branch name.
    RefChecked { ran: bool, valid: bool },
    /// The username and password, or why there is none.
    Credential(Result<(String, String), AppError>),
    /// The HTTP status and body, or why there is none.
    Reply(Result<(u16, Vec<u8>), SendFailure>),
}

/// The flow ended with this error.
pub open spec fn pr_fails(r: (PrFlow, PrAsk), x: (ErrorCode, Seq<char>, RecoveryAction, bool)) -> bool {
    r.0.wait == PrWait::Nothing && (r.1 matches PrAsk::Done(Err(e)) && is_error(e, x.0, x.1, x.2, x.3))
}

/// The flow ended with the shell's own error.
pub open spec fn pr_fails_as(r: (PrFlow, PrAsk), e: AppError) -> bool {
    r.0.wait == PrWait::Nothing && r.1 == PrAsk::Done(Err(e))
}

/// The request's own values travel unchanged through the flow.
pub open spec fn pr_keeps(a: PrFlow, b: PrFlow) -> bool {
    &&& a.source_branch@ == b.source_branch@
    &&& a.target_branch@ == b.target_branch@
    &&& a.title@ == b.title@
    &&& a.description@ == b.description@
    &&& a.base_override == b.base_override
}

/// Everything learnt from the remote travels unchanged too.
pub open spec fn pr_keeps_remote(a: PrFlow, b: PrFlow) -> bool {
    &&& pr_keeps(a, b)
    &&& a.provider == b.provider
    &&& a.api_base@ == b.api_base@
    &&& a.namespace@ == b.namespace@
    &&& a.repo@ == b.repo@
    &&& a.host@ == b.host@
}

/// The error of a remote name, if any.
pub open spec fn remote_name_error(name: Seq<char>) -> Option<Seq<char>> {
    if name.len() == 0 || utf8_len(name) > 250 {
        Some("Remote name is empty or too long"@)
    } else if remote_name_ok(name) {
        None
    } else {
        Some("Remote name has unsupported characters"@)
    }
}

/// A branch name whose text is refused before Git sees it.
pub open spec fn branch_text_bad(name: Seq<char>) -> bool {
    let t = trim(name);
    t.len() == 0 || utf8_len(t) > 250 || has_control(t)
}

/// Ask about the ref format of `name`, or refuse its text.
pub open spec fn check_branch(s: PrFlow, name: Seq<char>, w: PrWait, r: (PrFlow, PrAsk)) -> bool {
    if branch_text_bad(name) {
        pr_fails(r, bad("Branch name is empty or invalid"@))
    } else {
        r.0.wait == w && pr_keeps_remote(s, r.0) && (r.1 matches PrAsk::CheckRef(n) && n@ == trim(name))
    }
}

pub open spec fn pr_start(
    request: PullRequestCreateRequest,
    base_override: Option<Seq<char>>,
    r: (PrFlow, PrAsk),
) -> bool {
    if !request_id_ok(request.request_id@) {
        pr_fails(r, bad("requestId must be 1..=128 characters"@))
    } else {
        let kept = r.0.source_branch@ == request.source_branch@ && r.0.target_branch@
            == request.target_branch@ && r.0.title@ == request.title@ && r.0.description@
            == request.description@ && match (r.0.base_override, base_override) {
            (Some(a), Some(b)) => a@ == b,
            (None, None) => true,
            _ => false,
        };
        match request.remote {
            Some(name) => match remote_name_error(name@) {
                Some(m) => pr_fails(r, bad(m)),
                None => kept && r.0.wait == PrWait::RemoteUrl && (r.1 matches PrAsk::RemoteUrl(n)
                    && n@ == name@),
            },
            None => kept && r.0.wait == PrWait::DefaultRemote && r.1 is DefaultRemote,
        }
    }
}

/// What the flow has checked so far still holds of its own fields.
pub open spec fn pr_flow_ok(s: PrFlow) -> bool {
    &&& s.wait == PrWait::SourceRef ==> !branch_text_bad(s.source_branch@)
    &&& s.wait == PrWait::TargetRef ==> !branch_text_bad(s.target_branch@)
    &&& s.wait == PrWait::Credential ==> pr_text_ok(s.title@, 512) && (trim(s.description@).len()
        > 0 ==> pr_text_ok(s.description@, 65536))
}

pub open spec fn pr_fits(w: PrWait, ev: PrEvent) -> bool {
    match ev {
        PrEvent::DefaultRemote(_) => w == PrWait::DefaultRemote,
        PrEvent::RemoteUrl(_) => w == PrWait::RemoteUrl,
        PrEvent::RefChecked { .. } => w == PrWait::SourceRef || w == PrWait::TargetRef,
        PrEvent::Credential(_) => w == PrWait::Credential,
        PrEvent::Reply(_) => w == PrWait::Reply,
    }
}

/// After both branch names passed Git: the branches must differ, the
/// title and description must be valid, then the credential is asked for.
pub open spec fn after_branches(s: PrFlow, source: Seq<char>, target: Seq<char>, r: (PrFlow, PrAsk)) -> bool {
    if source == target {
        pr_fails(r, bad("Source and target branches must differ"@))
    } else if !pr_text_ok(s.title@, 512) {
        pr_fails(r, bad("Title"@ + " is empty or invalid"@))
    } else if trim(s.description@).len() > 0 && !pr_text_ok(s.description@, 65536) {
        pr_fails(r, bad("Description"@ + " is empty or invalid"@))
    } else {
        &&& r.0.wait == PrWait::Credential
        &&& pr_keeps_remote(s, r.0)
        &&& r.0.source@ == source
        &&& r.0.target@ == target
        &&& r.1 matches PrAsk::Credential(h) && h@ == s.host@
    }
}

/// The remote's URL arrived: recognise the provider (an override replaces
/// its API base), remember the host, and check the source branch's text.
pub open spec fn on_url(s: PrFlow, url: Seq<char>, r: (PrFlow, PrAsk)) -> bool {
    match pr_coords_of(url) {
        None => pr_fails(
            r,
            (
                ErrorCode::UNSUPPORTED,
                "Pull requests support github.com, bitbucket.org and gitlab.com remotes"@,
                RecoveryAction::InspectState,
                false,
            ),
        ),
        Some(v) => {
            &&& r.0.provider == v.0
            &&& r.0.namespace@ == v.1
            &&& r.0.repo@ == v.2
            &&& r.0.api_base@ == match s.base_override {
                Some(b) => trim_end_char(b@, '/'),
                None => api_base_of(v.0),
            }
            &&& r.0.host@ == match url_host_of(url) {
                Some(h) => h,
                None => Seq::empty(),
            }
            &&& pr_keeps(s, r.0)
            &&& if branch_text_bad(s.source_branch@) {
                pr_fails(r, bad("Branch name is empty or invalid"@))
            } else {
                r.0.wait == PrWait::SourceRef && (r.1 matches PrAsk::CheckRef(n) && n@ == trim(
                    s.source_branch@,
                ))
            }
        },
    }
}

/// One step of the flow.
pub open spec fn pr_next(s: PrFlow, ev: PrEvent, r: (PrFlow, PrAsk)) -> bool {
    match ev {
        PrEvent::DefaultRemote(Err(e)) => pr_fails_as(r, e),
        PrEvent::DefaultRemote(Ok(name)) => r.0.wait == PrWait::RemoteUrl && pr_keeps(s, r.0) && (r.1 matches PrAsk::RemoteUrl(
            n,
        ) && n@ == name@),
        PrEvent::RemoteUrl(Err(e)) => pr_fails_as(r, e),
        PrEvent::RemoteUrl(Ok(url)) => on_url(s, url@, r),
        PrEvent::RefChecked { ran, valid } => if !ran {
            pr_fails(r, bad("Could not validate the branch name"@))
        } else if !valid {
            pr_fails(r, bad("Branch name is not a valid Git branch name"@))
        } else if s.wait == PrWait::SourceRef {
            r.0.source@ == trim(s.source_branch@) && check_branch(
                s,
                s.target_branch@,
                PrWait::TargetRef,
                r,
            )
        } else {
            after_branches(s, s.source@, trim(s.target_branch@), r)
        },
        PrEvent::Credential(Err(e)) => pr_fails_as(r, e),
        PrEvent::Credential(Ok((user, password))) => {
            let description = if trim(s.description@).len() == 0 {
                Seq::empty()
            } else {
                trim(s.description@)
            };
            &&& r.0.wait == PrWait::Reply
            &&& pr_keeps_remote(s, r.0)
            &&& r.1 matches PrAsk::Send { endpoint, payload, provider, secret } && {
                &&& endpoint@ == endpoint_of(s.provider, s.api_base@, s.namespace@, s.repo@)
                &&& payload@ == request_body_of(
                    s.provider,
                    trim(s.title@),
                    description,
                    s.source@,
                    s.target@,
                )
                &&& provider == s.provider
                &&& secret@ == password@
            }
        },
        PrEvent::Reply(Err(SendFailure::TimedOut)) => pr_fails(
            r,
            (ErrorCode::TIMEOUT, "Provider request timed out"@, RecoveryAction::Refresh, false),
        ),
        PrEvent::Reply(Err(SendFailure::Unreachable)) => pr_fails(
            r,
            (ErrorCode::NETWORK_ERROR, "Could not reach the provider"@, RecoveryAction::Refresh, false),
        ),
        PrEvent::Reply(Err(SendFailure::Unreadable)) => pr_fails(
            r,
            (
                ErrorCode::NETWORK_ERROR,
                "Could not read the provider response"@,
                RecoveryAction::Refresh,
                false,
            ),
        ),
        PrEvent::Reply(Ok((status, body))) => r.0.wait == PrWait::Nothing && if 200 <= status
            < 300 {
            if body@.len() > max_response_bytes() {
                pr_fails(
                    r,
                    (
                        ErrorCode::OUTPUT_LIMIT,
                        "Provider response exceeded the safety bound"@,
                        RecoveryAction::RetryRead,
                        false,
                    ),
                )
            } else {
                r.1 matches PrAsk::Done(res) && match res {
                    Ok(p) => p.provider@ == s.provider.spec_name() && response_fields(
                        s.provider,
                        json_str_at(body@, url_pointer(s.provider)),
                        json_u64_at(body@, number_pointer(s.provider)),
                        Ok((p.url, p.reference)),
                    ),
                    Err(e) => response_fields(
                        s.provider,
                        json_str_at(body@, url_pointer(s.provider)),
                        json_u64_at(body@, number_pointer(s.provider)),
                        Err(e),
                    ),
                }
            }
        } else {
            r.1 matches PrAsk::Done(Err(e)) && http_error_is(
                status,
                s.provider,
                failure_message(body@),
                e,
            )
        },
    }
}

fn fail(f: PrFlow, e: AppError) -> (r: (PrFlow, PrAsk))
    ensures
        pr_fails_as(r, e),
        r.0 == (PrFlow { wait: PrWait::Nothing, ..f }),
{
    let mut g = f;
    g.wait = PrWait::Nothing;
    (g, PrAsk::Done(Err(e)))
}

/// Start creating a pull request; `base_override` replaces the provider's
/// API base.
pub fn pr_begin(request: &PullRequestCreateRequest, base_override: Option<&str>) -> (r: (PrFlow, PrAsk))
    ensures
        pr_start(
            *request,
            match base_override {
                Some(b) => Some(b@),
                None => None,
            },
            r,
        ),
        pr_flow_ok(r.0),
{
    let f = PrFlow {
        wait: PrWait::Nothing,
        source_branch: string_lit(request.source_branch.as_str()),
        target_branch: string_lit(request.target_branch.as_str()),
        title: string_lit(request.title.as_str()),
        description: string_lit(request.description.as_str()),
        base_override: match base_override {
            Some(b) => Some(string_lit(b)),
            None => None,
        },
        provider: PrProvider::GitHub,
        api_base: String::new(),
        namespace: String::new(),
        repo: String::new(),
        host: String::new(),
        source: String::new(),
        target: String::new(),
    };
    if let Err(e) = check_request_id(request.request_id.as_str()) {
        return fail(f, e);
    }
    match &request.remote {
        Some(name) => {
            if let Err(e) = check_remote_name(name.as_str()) {
                return fail(f, e);
            }
            let mut g = f;
            g.wait = PrWait::RemoteUrl;
            (g, PrAsk::RemoteUrl(string_lit(name.as_str())))
        },
        None => {
            let mut g = f;
            g.wait = PrWait::DefaultRemote;
            (g, PrAsk::DefaultRemote)
        },
    }
}

/// Whether `ev` answers what `s` waits for.
pub fn pr_event_fits(s: &PrFlow, ev: &PrEvent) -> (r: bool)
    ensures
        r == pr_fits(s.wait, *ev),
{
    match ev {
        PrEvent::DefaultRemote(_) => s.wait == PrWait::DefaultRemote,
        PrEvent::RemoteUrl(_) => s.wait == PrWait::RemoteUrl,
        PrEvent::RefChecked { .. } => s.wait == PrWait::SourceRef || s.wait == PrWait::TargetRef,
        PrEvent::Credential(_) => s.wait == PrWait::Credential,
        PrEvent::Reply(_) => s.wait == PrWait::Reply,
    }
}

#[verifier::rlimit(60)]
fn step_url(s: PrFlow, url: String) -> (r: (PrFlow, PrAsk))
    requires
        pr_flow_ok(s),
    ensures
        on_url(s, url@, r),
        pr_flow_ok(r.0),
{
    let coords = match detect_pr_provider(url.as_str()) {
        Some(c) => c,
        None => {
            return fail(s, unsupported_pr_host());
        },
    };
    let mut g = s;
    g.provider = coords.provider;
    g.namespace = coords.namespace;
    g.repo = coords.repo;
    g.api_base = match &g.base_override {
        Some(b) => api_base_override(b.as_str()),
        None => coords.api_base,
    };
    g.host = match raw_url_host(url.as_str()) {
        Some(h) => h,
        None => String::new(),
    };
    match check_pr_branch_text(g.source_branch.as_str()) {
        Err(e) => fail(g, e),
        Ok(t) => {
            g.wait = PrWait::SourceRef;
            let n = crate::text::string_of(t.as_slice());
            (g, PrAsk::CheckRef(n))
        },
    }
}

/// One step of a pull-request flow.
pub fn pr_step(s: PrFlow, ev: PrEvent) -> (r: (PrFlow, PrAsk))
    requires
        pr_fits(s.wait, ev),
        pr_flow_ok(s),
    ensures
        pr_next(s, ev, r),
        pr_flow_ok(r.0),
{
    match ev {
        PrEvent::DefaultRemote(Err(e)) => fail(s, e),
        PrEvent::DefaultRemote(Ok(name)) => {
            let mut g = s;
            g.wait = PrWait::RemoteUrl;
            (g, PrAsk::RemoteUrl(name))
        },
        PrEvent::RemoteUrl(Err(e)) => fail(s, e),
        PrEvent::RemoteUrl(Ok(url)) => step_url(s, url),
        PrEvent::RefChecked { ran, valid } => {
            if let Err(e) = pr_branch_checked(ran, valid) {
                return fail(s, e);
            }
            if s.wait == PrWait::SourceRef {
                let source = match check_pr_branch_text(s.source_branch.as_str()) {
                    Ok(t) => crate::text::string_of(t.as_slice()),
                    Err(e) => {
                        return fail(s, e);
                    },
                };
                let mut g = s;
                g.source = source;
                match check_pr_branch_text(g.target_branch.as_str()) {
                    Err(e) => fail(g, e),
                    Ok(t) => {
                        g.wait = PrWait::TargetRef;
                        let n = crate::text::string_of(t.as_slice());
                        (g, PrAsk::CheckRef(n))
                    },
                }
            } else {
                let target = match check_pr_branch_text(s.target_branch.as_str()) {
                    Ok(t) => crate::text::string_of(t.as_slice()),
                    Err(e) => {
                        return fail(s, e);
                    },
                };
                if let Err(e) = check_branches_differ(s.source.as_str(), target.as_str()) {
                    return fail(s, e);
                }
                if let Err(e) = check_pr_text(s.title.as_str(), "Title", 512) {
                    return fail(s, e);
                }
                if let Err(e) = pr_description(s.description.as_str()) {
                    return fail(s, e);
                }
                let host = string_lit(s.host.as_str());
                let mut g = s;
                g.target = target;
                g.wait = PrWait::Credential;
                (g, PrAsk::Credential(host))
            }
        },
        PrEvent::Credential(Err(e)) => fail(s, e),
        PrEvent::Credential(Ok((_user, password))) => {
            let title = match check_pr_text(s.title.as_str(), "Title", 512) {
                Ok(t) => t,
                Err(e) => {
                    return fail(s, e);
                },
            };
            let description = match pr_description(s.description.as_str()) {
                Ok(d) => d,
                Err(e) => {
                    return fail(s, e);
                },
            };
            let coords = PrCoords {
                provider: s.provider,
                api_base: string_lit(s.api_base.as_str()),
                namespace: string_lit(s.namespace.as_str()),
                repo: string_lit(s.repo.as_str()),
            };
            let endpoint = pr_endpoint(&coords);
            let payload = pr_request_json(
                s.provider,
                title.as_str(),
                description.as_str(),
                s.source.as_str(),
                s.target.as_str(),
            );
            let provider = s.provider;
            let mut g = s;
            g.wait = PrWait::Reply;
            (g, PrAsk::Send { endpoint, payload, provider, secret: password })
        },
        PrEvent::Reply(Err(f)) => {
            let e = match f {
                SendFailure::TimedOut => provider_unreachable(true),
                SendFailure::Unreachable => provider_unreachable(false),
                SendFailure::Unreadable => provider_reply_unreadable(),
            };
            fail(s, e)
        },
        PrEvent::Reply(Ok((status, body))) => {
            if !(200 <= status && status < 300) {
                let e = pr_http_error(status, s.provider, body.as_slice());
                return fail(s, e);
            }
            match pr_parse_response(s.provider, body.as_slice()) {
                Ok((url, reference)) => {
                    let provider = s.provider;
                    let mut g = s;
                    g.wait = PrWait::Nothing;
                    (g, PrAsk::Done(Ok(pull_request_result(provider, url, reference))))
                },
                Err(e) => fail(s, e),
            }
        },
    }
}

} // verus!
