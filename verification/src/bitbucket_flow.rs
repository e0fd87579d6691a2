//! `bitbucket_connect`: save a Bitbucket API token with the Git credential
//! helper. The flow checks the request id, the session, trust and
//! version, and the remote name; asks for the remote's URL, which must be
//! an HTTPS bitbucket.org URL; asks whether a credential helper is
//! configured; and only then hands the helper the credential to approve.

use vstd::prelude::*;
use crate::domain::{BitbucketConnectionResult, TrustState};
use crate::error::{check_request_id, is_error, request_id_ok, session_missing, stale_state, trust_required, AppError, ErrorCode, RecoveryAction};
use crate::pr_flow::remote_name_error;
use crate::registry::RepoRegistry;
use crate::remote::{
    bitbucket_context_of, bitbucket_credential_context, bitbucket_credential_payload, check_remote_name,
    credential_payload_text, token_ok,
};
use crate::sync::{
    bitbucket_connection, check_credential_helper, helper_error, helper_listed, not_bitbucket_https,
    BitbucketConnectRequest,
};
use crate::text::{string_lit, trim};

verus! {

/// The answer a connect flow waits for.
#[derive(Debug, Clone, Copy, PartialEq, Eq, Structural)]
pub enum ConnectWait {
    DefaultRemote,
    RemoteUrl,
    Helper,
    Approve,
    Nothing,
}

/// A Bitbucket connection in progress.
pub struct ConnectFlow {
    pub wait: ConnectWait,
    pub api_token: String,
    pub remote_name: String,
    pub host: String,
    pub path: String,
    pub username: String,
}

/// What the shell does next.
pub enum ConnectAsk {
    /// Find the remote of the current branch, or `origin`.
    DefaultRemote,
    /// Read the URL of this remote.
    RemoteUrl(String),
    /// `git config --get-urlmatch credential.helper https://bitbucket.org`.
    ReadHelper,
    /// `git credential approve` with these bytes on stdin.
    Approve(Vec<u8>),
    Done(Result<BitbucketConnectionResult, AppError>),
}

/// What the shell found.
pub enum ConnectEvent {
    DefaultRemote(Result<String, AppError>),
    RemoteUrl(Result<String, AppError>),
    /// Git's success and output, `None` when Git could not run.
    Helper(Option<(bool, String)>),
    /// Whether the helper accepted the credential, `None` when it could
    /// not run.
    Approved(Option<bool>),
}

/// The flow ended with this error.
pub open spec fn connect_fails(r: (ConnectFlow, ConnectAsk), x: (ErrorCode, Seq<char>, RecoveryAction, bool)) -> bool {
    r.0.wait == ConnectWait::Nothing && (r.1 matches ConnectAsk::Done(Err(e)) && is_error(e, x.0, x.1, x.2, x.3))
}

pub open spec fn connect_fails_as(r: (ConnectFlow, ConnectAsk), e: AppError) -> bool {
    r.0.wait == ConnectWait::Nothing && r.1 == ConnectAsk::Done(Err(e))
}

pub open spec fn io_error(m: Seq<char>) -> (ErrorCode, Seq<char>, RecoveryAction, bool) {
    (ErrorCode::IO_ERROR, m, RecoveryAction::ConfigureGit, false)
}

/// Everything learnt so far travels unchanged.
pub open spec fn connect_keeps(a: ConnectFlow, b: ConnectFlow) -> bool {
    &&& a.api_token@ == b.api_token@
    &&& a.remote_name@ == b.remote_name@
    &&& a.host@ == b.host@
    &&& a.path@ == b.path@
    &&& a.username@ == b.username@
}

pub open spec fn connect_start(
    reg: RepoRegistry,
    request: BitbucketConnectRequest,
    r: (ConnectFlow, ConnectAsk),
) -> bool {
    if !request_id_ok(request.request_id@) {
        connect_fails(
            r,
            (
                ErrorCode::INVALID_ARGUMENT,
                "requestId must be 1..=128 characters"@,
                RecoveryAction::InspectState,
                false,
            ),
        )
    } else {
        match reg.session_index(request.repo_id@) {
            None => connect_fails(
                r,
                (
                    ErrorCode::REPO_UNAVAILABLE,
                    "Repository session is no longer open"@,
                    RecoveryAction::ChooseRepository,
                    false,
                ),
            ),
            Some(i) => if reg.sessions()[i].trust != TrustState::Trusted {
                connect_fails(
                    r,
                    (
                        ErrorCode::TRUST_REQUIRED,
                        "Trust this repository to "@ + "save a Bitbucket credential"@,
                        RecoveryAction::InspectState,
                        false,
                    ),
                )
            } else if reg.sessions()[i].version != request.expected_version {
                connect_fails(
                    r,
                    (
                        ErrorCode::STALE_STATE,
                        "The repository changed under you; refresh and retry"@,
                        RecoveryAction::Refresh,
                        false,
                    ),
                )
            } else {
                match request.remote {
                    Some(name) => match remote_name_error(name@) {
                        Some(m) => connect_fails(
                            r,
                            (ErrorCode::INVALID_ARGUMENT, m, RecoveryAction::InspectState, false),
                        ),
                        None => r.0.wait == ConnectWait::RemoteUrl && r.0.api_token@
                            == request.api_token@ && r.0.remote_name@ == name@ && (r.1 matches ConnectAsk::RemoteUrl(
                            n,
                        ) && n@ == name@),
                    },
                    None => r.0.wait == ConnectWait::DefaultRemote && r.0.api_token@
                        == request.api_token@ && r.1 is DefaultRemote,
                }
            },
        }
    }
}

pub open spec fn connect_fits(w: ConnectWait, ev: ConnectEvent) -> bool {
    match ev {
        ConnectEvent::DefaultRemote(_) => w == ConnectWait::DefaultRemote,
        ConnectEvent::RemoteUrl(_) => w == ConnectWait::RemoteUrl,
        ConnectEvent::Helper(_) => w == ConnectWait::Helper,
        ConnectEvent::Approved(_) => w == ConnectWait::Approve,
    }
}

/// One step of the flow.
pub open spec fn connect_next(s: ConnectFlow, ev: ConnectEvent, r: (ConnectFlow, ConnectAsk)) -> bool {
    match ev {
        ConnectEvent::DefaultRemote(Err(e)) => connect_fails_as(r, e),
        ConnectEvent::DefaultRemote(Ok(name)) => r.0.wait == ConnectWait::RemoteUrl && r.0.api_token@
            == s.api_token@ && r.0.remote_name@ == name@ && (r.1 matches ConnectAsk::RemoteUrl(n)
            && n@ == name@),
        ConnectEvent::RemoteUrl(Err(e)) => connect_fails_as(r, e),
        ConnectEvent::RemoteUrl(Ok(url)) => match bitbucket_context_of(url@) {
            None => connect_fails(
                r,
                (
                    ErrorCode::UNSUPPORTED,
                    "Bitbucket token integration requires an HTTPS bitbucket.org remote; SSH remotes use the SSH agent"@,
                    RecoveryAction::InspectState,
                    false,
                ),
            ),
            Some(v) => r.0.wait == ConnectWait::Helper && r.0.api_token@ == s.api_token@
                && r.0.remote_name@ == s.remote_name@ && r.0.host@ == v.0 && r.0.path@ == v.1
                && r.0.username@ == v.2 && r.1 is ReadHelper,
        },
        ConnectEvent::Helper(None) => connect_fails(
            r,
            io_error("Octopus could not inspect the Git credential helper"@),
        ),
        ConnectEvent::Helper(Some((success, stdout))) => if !(success && helper_listed(stdout@)) {
            connect_fails(
                r,
                (
                    ErrorCode::UNSUPPORTED,
                    "No Git credential helper is configured for Bitbucket. Configure a secure Git credential helper, then retry"@,
                    RecoveryAction::ConfigureGit,
                    false,
                ),
            )
        } else if !token_ok(s.api_token@) {
            connect_fails(
                r,
                (
                    ErrorCode::INVALID_ARGUMENT,
                    "Bitbucket API token is empty or invalid"@,
                    RecoveryAction::InspectState,
                    false,
                ),
            )
        } else {
            &&& r.0.wait == ConnectWait::Approve
            &&& connect_keeps(s, r.0)
            &&& r.1 matches ConnectAsk::Approve(bytes) && bytes@ == vstd::utf8::encode_utf8(
                credential_payload_text(s.host@, s.path@, s.username@, trim(s.api_token@)),
            )
        },
        ConnectEvent::Approved(None) => connect_fails(
            r,
            io_error("Git credential helper could not save the Bitbucket token"@),
        ),
        ConnectEvent::Approved(Some(false)) => connect_fails(
            r,
            io_error("Git credential helper rejected the Bitbucket token"@),
        ),
        ConnectEvent::Approved(Some(true)) => r.0.wait == ConnectWait::Nothing && (r.1 matches ConnectAsk::Done(
            Ok(c),
        ) && c.remote_name@ == s.remote_name@ && c.username@ == s.username@ && c.credential_saved),
    }
}

fn fail(f: ConnectFlow, e: AppError) -> (r: (ConnectFlow, ConnectAsk))
    ensures
        connect_fails_as(r, e),
{
    let mut g = f;
    g.wait = ConnectWait::Nothing;
    (g, ConnectAsk::Done(Err(e)))
}

/// Start saving a Bitbucket credential.
pub fn connect_begin(reg: &RepoRegistry, request: &BitbucketConnectRequest) -> (r: (ConnectFlow, ConnectAsk))
    requires
        reg.wf(),
    ensures
        connect_start(*reg, *request, r),
{
    let f = ConnectFlow {
        wait: ConnectWait::Nothing,
        api_token: string_lit(request.api_token.as_str()),
        remote_name: String::new(),
        host: String::new(),
        path: String::new(),
        username: String::new(),
    };
    if let Err(e) = check_request_id(request.request_id.as_str()) {
        return fail(f, e);
    }
    let session = match reg.session(request.repo_id.as_str()) {
        Some(s) => s,
        None => {
            return fail(f, session_missing());
        },
    };
    if session.trust != TrustState::Trusted {
        return fail(f, trust_required("save a Bitbucket credential"));
    }
    if session.version != request.expected_version {
        return fail(f, stale_state());
    }
    match &request.remote {
        Some(name) => {
            if let Err(e) = check_remote_name(name.as_str()) {
                return fail(f, e);
            }
            let mut g = f;
            g.wait = ConnectWait::RemoteUrl;
            g.remote_name = string_lit(name.as_str());
            (g, ConnectAsk::RemoteUrl(string_lit(name.as_str())))
        },
        None => {
            let mut g = f;
            g.wait = ConnectWait::DefaultRemote;
            (g, ConnectAsk::DefaultRemote)
        },
    }
}

/// Whether `ev` answers what `f` waits for.
pub fn connect_event_fits(f: &ConnectFlow, ev: &ConnectEvent) -> (r: bool)
    ensures
        r == connect_fits(f.wait, *ev),
{
    match ev {
        ConnectEvent::DefaultRemote(_) => f.wait == ConnectWait::DefaultRemote,
        ConnectEvent::RemoteUrl(_) => f.wait == ConnectWait::RemoteUrl,
        ConnectEvent::Helper(_) => f.wait == ConnectWait::Helper,
        ConnectEvent::Approved(_) => f.wait == ConnectWait::Approve,
    }
}

/// One step of a Bitbucket connection.
pub fn connect_step(s: ConnectFlow, ev: ConnectEvent) -> (r: (ConnectFlow, ConnectAsk))
    requires
        connect_fits(s.wait, ev),
    ensures
        connect_next(s, ev, r),
{
    match ev {
        ConnectEvent::DefaultRemote(Err(e)) => fail(s, e),
        ConnectEvent::DefaultRemote(Ok(name)) => {
            let n = string_lit(name.as_str());
            let mut g = s;
            g.wait = ConnectWait::RemoteUrl;
            g.remote_name = name;
            (g, ConnectAsk::RemoteUrl(n))
        },
        ConnectEvent::RemoteUrl(Err(e)) => fail(s, e),
        ConnectEvent::RemoteUrl(Ok(url)) => {
            let context = match bitbucket_credential_context(url.as_str()) {
                Some(c) => c,
                None => {
                    return fail(s, not_bitbucket_https());
                },
            };
            let mut g = s;
            g.wait = ConnectWait::Helper;
            g.host = context.host;
            g.path = context.path;
            g.username = context.username;
            (g, ConnectAsk::ReadHelper)
        },
        ConnectEvent::Helper(None) => fail(s, helper_error(0)),
        ConnectEvent::Helper(Some((success, stdout))) => {
            if let Err(e) = check_credential_helper(success, stdout.as_str()) {
                return fail(s, e);
            }
            let context = crate::remote::BitbucketCredentialContext {
                host: string_lit(s.host.as_str()),
                path: string_lit(s.path.as_str()),
                username: string_lit(s.username.as_str()),
            };
            match bitbucket_credential_payload(&context, s.api_token.as_str()) {
                Err(e) => fail(s, e),
                Ok(bytes) => {
                    let mut g = s;
                    g.wait = ConnectWait::Approve;
                    (g, ConnectAsk::Approve(bytes))
                },
            }
        },
        ConnectEvent::Approved(None) => fail(s, helper_error(1)),
        ConnectEvent::Approved(Some(ok)) => {
            if !ok {
                return fail(s, helper_error(2));
            }
            let result = bitbucket_connection(
                string_lit(s.remote_name.as_str()),
                string_lit(s.username.as_str()),
            );
            let mut g = s;
            g.wait = ConnectWait::Nothing;
            (g, ConnectAsk::Done(Ok(result)))
        },
    }
}

} // verus!
