//! `app_preflight`: the Git version probe. The probe itself (PATH lookup,
//! spawning `git --version`) is I/O; this module decides what its outcome
//! means: version parsing, the supported baseline and the reply.

use vstd::prelude::*;
use crate::error::{is_error, request_id_ok, ApiResult, AppError, ErrorCode, RecoveryAction, RequestId};
use crate::num::{parse_u64, parse_u64_spec};
use crate::text::{
    before_char, chars_of, concat3, first_word, first_word_of, split_once, split_once_char,
    str_exceeds, string_lit, string_of, strip_prefix, strip_prefix_vec, take_before, trim, trim_ws,
};

verus! {

/// Minimum supported system Git.
pub const MIN_GIT_MAJOR: u64 = 2;

pub const MIN_GIT_MINOR: u64 = 43;

pub struct AppPreflightRequest {
    pub request_id: RequestId,
}

#[derive(Debug, Clone, PartialEq, Eq)]
pub struct PreflightFeatures {
    pub local_operations: bool,
}

#[derive(Debug, Clone, PartialEq, Eq)]
pub struct PreflightData {
    /// Resolved executable path used for the probe. Display only.
    pub git_path: String,
    /// Raw version string reported by Git, e.g. "2.43.0".
    pub git_version: String,
    /// True when the version meets the supported baseline.
    pub git_supported: bool,
    pub platform: String,
    pub arch: String,
    pub features: PreflightFeatures,
}

/// The first line of `s` with surrounding whitespace removed
/// (`s.lines().next()` then `trim`); `None` for empty input.
pub open spec fn first_line_trimmed(s: Seq<char>) -> Option<Seq<char>> {
    if s.len() == 0 {
        None
    } else {
        Some(trim(before_char(s, '\n')))
    }
}

/// The version token of `git --version` output: the first word after the
/// `git version ` prefix of the first line.
pub open spec fn version_token(stdout: Seq<char>) -> Option<Seq<char>> {
    match first_line_trimmed(stdout) {
        None => None,
        Some(line) => match strip_prefix(line, "git version "@) {
            None => None,
            Some(rest) => first_word(rest),
        },
    }
}

/// Major and minor component texts of a version token: the text before
/// the first `.`, and the text between the first and second `.` (or "0"
/// when the token has no `.`).
pub open spec fn version_parts(token: Seq<char>) -> (Seq<char>, Seq<char>) {
    match split_once(token, '.') {
        Some((major, rest)) => (major, before_char(rest, '.')),
        None => (token, "0"@),
    }
}

/// `parse_git_version` as a function of the probe's stdout.
pub open spec fn parsed_git_version(stdout: Seq<char>) -> Option<(Seq<char>, u64, u64)> {
    match version_token(stdout) {
        None => None,
        Some(token) => {
            let (major, minor) = version_parts(token);
            match (parse_u64_spec(major), parse_u64_spec(minor)) {
                (Some(a), Some(b)) => Some((token, a, b)),
                _ => None,
            }
        },
    }
}

/// Parse `git --version` stdout (`git version 2.43.0` + optional suffixes).
pub fn parse_git_version(stdout: &str) -> (r: Option<(String, u64, u64)>)
    ensures
        match r {
            Some((token, major, minor)) => parsed_git_version(stdout@) == Some(
                (token@, major, minor),
            ),
            None => parsed_git_version(stdout@) is None,
        },
{
    let all = chars_of(stdout);
    if all.len() == 0 {
        return None;
    }
    let line = trim_ws(&take_before(&all, '\n'));
    let prefix = chars_of("git version ");
    let rest = match strip_prefix_vec(&line, &prefix) {
        Some(rest) => rest,
        None => return None,
    };
    let token = match first_word_of(&rest) {
        Some(token) => token,
        None => return None,
    };
    let (major_text, minor_text) = match split_once_char(&token, '.') {
        Some((major, rest)) => (major, take_before(&rest, '.')),
        None => (token.clone(), chars_of("0")),
    };
    assert((major_text@, minor_text@) == version_parts(token@));
    let major = match parse_u64(&major_text) {
        Some(v) => v,
        None => return None,
    };
    let minor = match parse_u64(&minor_text) {
        Some(v) => v,
        None => return None,
    };
    Some((string_of(token.as_slice()), major, minor))
}

pub open spec fn supported(major: u64, minor: u64) -> bool {
    major > MIN_GIT_MAJOR || (major == MIN_GIT_MAJOR && minor >= MIN_GIT_MINOR)
}

pub fn version_supported(major: u64, minor: u64) -> (b: bool)
    ensures
        b == supported(major, minor),
{
    major > MIN_GIT_MAJOR || (major == MIN_GIT_MAJOR && minor >= MIN_GIT_MINOR)
}

/// What the environment probe observed.
pub enum GitProbe {
    /// No `git` executable on PATH.
    NotFound,
    /// `git --version` did not finish within the probe timeout.
    TimedOut,
    /// The process could not be run; `detail` is the OS error text.
    SpawnFailed { detail: String },
    /// The process finished; `stdout` is its (lossily decoded) output.
    Finished { git_path: String, success: bool, stdout: String, platform: String, arch: String },
}

/// The reply of `app_preflight` for a request id and a probe outcome.
pub open spec fn preflight_reply(
    request_id: Seq<char>,
    probe: GitProbe,
    r: ApiResult<PreflightData>,
) -> bool {
    if !request_id_ok(request_id) {
        r matches ApiResult::Failure { ok, error, request_id: id } && !ok && id@ == request_id
            && is_error(
            error,
            ErrorCode::INVALID_ARGUMENT,
            "requestId must be 1..=128 characters"@,
            RecoveryAction::RetryRead,
            false,
        )
    } else {
        match probe {
            GitProbe::NotFound => failure_is(
                r,
                request_id,
                ErrorCode::GIT_NOT_FOUND,
                "Git executable not found on PATH"@,
                RecoveryAction::ConfigureGit,
                false,
            ),
            GitProbe::TimedOut => failure_is(
                r,
                request_id,
                ErrorCode::TIMEOUT,
                "Git version probe timed out"@,
                RecoveryAction::RetryRead,
                true,
            ),
            GitProbe::SpawnFailed { detail } => failure_is(
                r,
                request_id,
                ErrorCode::IO_ERROR,
                "Failed to run Git probe: "@ + detail@,
                RecoveryAction::ConfigureGit,
                false,
            ),
            GitProbe::Finished { git_path, success, stdout, platform, arch } => {
                if !success {
                    failure_is(
                        r,
                        request_id,
                        ErrorCode::GIT_ERROR,
                        "Git version probe failed"@,
                        RecoveryAction::ConfigureGit,
                        false,
                    )
                } else {
                    match parsed_git_version(stdout@) {
                        None => failure_is(
                            r,
                            request_id,
                            ErrorCode::GIT_VERSION_UNSUPPORTED,
                            "Unrecognized Git version output"@,
                            RecoveryAction::ConfigureGit,
                            false,
                        ),
                        Some((version, major, minor)) => if !supported(major, minor) {
                            failure_is(
                                r,
                                request_id,
                                ErrorCode::GIT_VERSION_UNSUPPORTED,
                                "Git "@ + version + " is below the supported baseline 2.43"@,
                                RecoveryAction::ConfigureGit,
                                false,
                            )
                        } else {
                            r matches ApiResult::Success { ok, data, request_id: id } && ok && id@
                                == request_id && data.git_path@ == git_path@
                                && data.git_version@ == version && data.git_supported
                                && data.platform@ == platform@ && data.arch@ == arch@
                                && data.features.local_operations
                        },
                    }
                }
            },
        }
    }
}

pub open spec fn failure_is<T>(
    r: ApiResult<T>,
    request_id: Seq<char>,
    code: ErrorCode,
    message: Seq<char>,
    recovery: RecoveryAction,
    retryable: bool,
) -> bool {
    r matches ApiResult::Failure { ok, error, request_id: id } && !ok && id@ == request_id
        && is_error(error, code, message, recovery, retryable)
}

fn fail<T>(
    request_id: RequestId,
    code: ErrorCode,
    message: String,
    recovery: RecoveryAction,
    retryable: bool,
) -> (r: ApiResult<T>)
    ensures
        failure_is(r, request_id@, code, message@, recovery, retryable),
{
    ApiResult::err(AppError::new(code, message, recovery, retryable), request_id)
}

/// Decide the `app_preflight` reply. The request id is checked before
/// anything else, so an invalid id is reported whatever the probe saw.
pub fn app_preflight_reply(request_id: RequestId, probe: GitProbe) -> (r: ApiResult<
    PreflightData,
>)
    ensures
        preflight_reply(request_id@, probe, r),
{
    if request_id.as_str().is_empty() || str_exceeds(request_id.as_str(), 128) {
        return fail(
            request_id,
            ErrorCode::INVALID_ARGUMENT,
            string_lit("requestId must be 1..=128 characters"),
            RecoveryAction::RetryRead,
            false,
        );
    }
    match probe {
        GitProbe::NotFound => fail(
            request_id,
            ErrorCode::GIT_NOT_FOUND,
            string_lit("Git executable not found on PATH"),
            RecoveryAction::ConfigureGit,
            false,
        ),
        GitProbe::TimedOut => fail(
            request_id,
            ErrorCode::TIMEOUT,
            string_lit("Git version probe timed out"),
            RecoveryAction::RetryRead,
            true,
        ),
        GitProbe::SpawnFailed { detail } => {
            let mut message = string_lit("Failed to run Git probe: ");
            message.append(detail.as_str());
            fail(request_id, ErrorCode::IO_ERROR, message, RecoveryAction::ConfigureGit, false)
        },
        GitProbe::Finished { git_path, success, stdout, platform, arch } => {
            if !success {
                return fail(
                    request_id,
                    ErrorCode::GIT_ERROR,
                    string_lit("Git version probe failed"),
                    RecoveryAction::ConfigureGit,
                    false,
                );
            }
            match parse_git_version(stdout.as_str()) {
                None => fail(
                    request_id,
                    ErrorCode::GIT_VERSION_UNSUPPORTED,
                    string_lit("Unrecognized Git version output"),
                    RecoveryAction::ConfigureGit,
                    false,
                ),
                Some((version, major, minor)) => {
                    if !version_supported(major, minor) {
                        let message = concat3(
                            "Git ",
                            version.as_str(),
                            " is below the supported baseline 2.43",
                        );
                        return fail(
                            request_id,
                            ErrorCode::GIT_VERSION_UNSUPPORTED,
                            message,
                            RecoveryAction::ConfigureGit,
                            false,
                        );
                    }
                    ApiResult::ok(
                        PreflightData {
                            git_path,
                            git_version: version,
                            git_supported: true,
                            platform,
                            arch,
                            features: PreflightFeatures { local_operations: true },
                        },
                        request_id,
                    )
                },
            }
        },
    }
}

} // verus!
