//! Typed error/result envelope shared by every command: `{ok:true,data,
//! requestId}` or `{ok:false,error,requestId}`, plus the error values the
//! command layer hands out.

use vstd::prelude::*;
use crate::text::{concat2, str_exceeds, string_lit, utf8_len};

verus! {

pub type RequestId = String;

pub type OperationId = String;

/// Every error code of the IPC contract; the variant names double as the
/// wire format.
#[allow(non_camel_case_types)]
#[derive(Debug, Clone, Copy, PartialEq, Eq, Structural)]
pub enum ErrorCode {
    GIT_NOT_FOUND,
    GIT_VERSION_UNSUPPORTED,
    NOT_REPOSITORY,
    BARE_REPOSITORY,
    REPO_UNAVAILABLE,
    INVALID_ARGUMENT,
    PATH_INVALID,
    REF_INVALID,
    TRUST_REQUIRED,
    REPO_BUSY,
    REPO_LOCKED,
    STALE_STATE,
    DIRTY_WORKTREE,
    EMPTY_INDEX,
    IDENTITY_MISSING,
    CONFLICTS_PRESENT,
    DIVERGED,
    AUTH_REQUIRED,
    NETWORK_ERROR,
    OFFLINE,
    HOOK_FAILED,
    SIGNING_FAILED,
    OUTPUT_LIMIT,
    UNSUPPORTED,
    CANCELLED,
    TIMEOUT,
    IO_ERROR,
    GIT_ERROR,
}

/// What the UI should offer next.
#[derive(Debug, Clone, Copy, PartialEq, Eq, Structural)]
pub enum RecoveryAction {
    Refresh,
    RetryRead,
    ConfigureGit,
    Authenticate,
    ResolveConflict,
    ChooseRepository,
    InspectState,
    /// Nothing to offer (wire value `none`).
    NoAction,
}

/// A user-safe error. `message` never carries secrets or raw stderr;
/// mutations are never marked for automatic retry.
#[derive(Debug, Clone, PartialEq, Eq)]
pub struct AppError {
    pub code: ErrorCode,
    pub message: String,
    pub recovery: RecoveryAction,
    pub retryable: bool,
    pub operation_id: Option<OperationId>,
    pub diagnostic_id: Option<String>,
}

/// The shape of a refused request: an invalid argument with message `m`,
/// to be inspected, not retried.
pub open spec fn bad(m: Seq<char>) -> (ErrorCode, Seq<char>, RecoveryAction, bool) {
    (ErrorCode::INVALID_ARGUMENT, m, RecoveryAction::InspectState, false)
}

/// `e` is the error `AppError::new(code, message, recovery, retryable)`.
pub open spec fn is_error(
    e: AppError,
    code: ErrorCode,
    message: Seq<char>,
    recovery: RecoveryAction,
    retryable: bool,
) -> bool {
    &&& e.code == code
    &&& e.message@ == message
    &&& e.recovery == recovery
    &&& e.retryable == retryable
    &&& e.operation_id is None
    &&& e.diagnostic_id is None
}

impl AppError {
    pub fn new(code: ErrorCode, message: String, recovery: RecoveryAction, retryable: bool) -> (e:
        Self)
        ensures
            is_error(e, code, message@, recovery, retryable),
    {
        AppError { code, message, recovery, retryable, operation_id: None, diagnostic_id: None }
    }
}

/// The result envelope of every command.
#[derive(Debug, Clone, PartialEq, Eq)]
pub enum ApiResult<T> {
    Success { ok: bool, data: T, request_id: RequestId },
    Failure { ok: bool, error: AppError, request_id: RequestId },
}

impl<T> ApiResult<T> {
    pub fn ok(data: T, request_id: RequestId) -> (r: Self)
        ensures
            r == (ApiResult::Success { ok: true, data, request_id }),
    {
        ApiResult::Success { ok: true, data, request_id }
    }

    pub fn err(error: AppError, request_id: RequestId) -> (r: Self)
        ensures
            r == (ApiResult::Failure::<T> { ok: false, error, request_id }),
    {
        ApiResult::Failure { ok: false, error, request_id }
    }
}

/// The envelope for a command result: `ok` carries the data, an error
/// travels as `err`, both tagged with the request id.
pub fn envelope<T>(result: Result<T, AppError>, request_id: RequestId) -> (r: ApiResult<T>)
    ensures
        match result {
            Ok(data) => r == (ApiResult::Success { ok: true, data, request_id }),
            Err(error) => r == (ApiResult::Failure::<T> { ok: false, error, request_id }),
        },
{
    match result {
        Ok(data) => ApiResult::ok(data, request_id),
        Err(error) => ApiResult::err(error, request_id),
    }
}

// ---------------------------------------------------------------------------
// The error values shared by the command modules
// ---------------------------------------------------------------------------

pub fn bad_request(message: String) -> (e: AppError)
    ensures
        is_error(e, ErrorCode::INVALID_ARGUMENT, message@, RecoveryAction::InspectState, false),
{
    AppError::new(ErrorCode::INVALID_ARGUMENT, message, RecoveryAction::InspectState, false)
}

pub fn bad_request_str(message: &str) -> (e: AppError)
    ensures
        is_error(e, ErrorCode::INVALID_ARGUMENT, message@, RecoveryAction::InspectState, false),
{
    bad_request(string_lit(message))
}

/// A request id is valid when it holds 1..=128 bytes.
pub open spec fn request_id_ok(id: Seq<char>) -> bool {
    id.len() > 0 && utf8_len(id) <= 128
}

pub fn check_request_id(id: &str) -> (r: Result<(), AppError>)
    ensures
        r is Ok <==> request_id_ok(id@),
        r matches Err(e) ==> is_error(
            e,
            ErrorCode::INVALID_ARGUMENT,
            "requestId must be 1..=128 characters"@,
            RecoveryAction::InspectState,
            false,
        ),
{
    if id.is_empty() || str_exceeds(id, 128) {
        return Err(bad_request_str("requestId must be 1..=128 characters"));
    }
    Ok(())
}

pub fn session_missing() -> (e: AppError)
    ensures
        is_error(
            e,
            ErrorCode::REPO_UNAVAILABLE,
            "Repository session is no longer open"@,
            RecoveryAction::ChooseRepository,
            false,
        ),
{
    AppError::new(
        ErrorCode::REPO_UNAVAILABLE,
        string_lit("Repository session is no longer open"),
        RecoveryAction::ChooseRepository,
        false,
    )
}

/// "Trust this repository to {action}".
pub fn trust_required(action: &str) -> (e: AppError)
    ensures
        is_error(
            e,
            ErrorCode::TRUST_REQUIRED,
            "Trust this repository to "@ + action@,
            RecoveryAction::InspectState,
            false,
        ),
{
    AppError::new(
        ErrorCode::TRUST_REQUIRED,
        concat2("Trust this repository to ", action),
        RecoveryAction::InspectState,
        false,
    )
}

pub fn stale_state() -> (e: AppError)
    ensures
        is_error(
            e,
            ErrorCode::STALE_STATE,
            "The repository changed under you; refresh and retry"@,
            RecoveryAction::Refresh,
            false,
        ),
{
    AppError::new(
        ErrorCode::STALE_STATE,
        string_lit("The repository changed under you; refresh and retry"),
        RecoveryAction::Refresh,
        false,
    )
}

/// The error every command reports when no `git` executable is on PATH.
pub fn git_not_found() -> (e: AppError)
    ensures
        is_error(
            e,
            ErrorCode::GIT_NOT_FOUND,
            "Git executable not found on PATH"@,
            RecoveryAction::ConfigureGit,
            false,
        ),
{
    AppError::new(
        ErrorCode::GIT_NOT_FOUND,
        string_lit("Git executable not found on PATH"),
        RecoveryAction::ConfigureGit,
        false,
    )
}

/// "Git could not {action}", retryable after a refresh.
pub fn git_failed(action: &str) -> (e: AppError)
    ensures
        is_error(
            e,
            ErrorCode::GIT_ERROR,
            "Git could not "@ + action@,
            RecoveryAction::Refresh,
            true,
        ),
{
    AppError::new(
        ErrorCode::GIT_ERROR,
        concat2("Git could not ", action),
        RecoveryAction::Refresh,
        true,
    )
}

pub fn unsupported(message: &str) -> (e: AppError)
    ensures
        is_error(e, ErrorCode::UNSUPPORTED, message@, RecoveryAction::InspectState, false),
{
    AppError::new(ErrorCode::UNSUPPORTED, string_lit(message), RecoveryAction::InspectState, false)
}

pub fn repo_busy() -> (e: AppError)
    ensures
        is_error(
            e,
            ErrorCode::REPO_BUSY,
            "A background operation is still running for this repository"@,
            RecoveryAction::InspectState,
            false,
        ),
{
    AppError::new(
        ErrorCode::REPO_BUSY,
        string_lit("A background operation is still running for this repository"),
        RecoveryAction::InspectState,
        false,
    )
}

} // verus!
