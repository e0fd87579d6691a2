//! Settings reads and updates: optimistic concurrency on the settings
//! version and a whitelisted patch whose font scale is range-checked.

use vstd::prelude::*;
use crate::error::{bad_request_str, is_error, AppError, ErrorCode, RecoveryAction, RequestId};
use crate::text::string_lit;

verus! {

#[derive(Debug)]
pub struct SettingsGetRequest {
    pub request_id: RequestId,
}

pub fn stale_settings() -> (e: AppError)
    ensures
        is_error(
            e,
            ErrorCode::STALE_STATE,
            "Settings changed under you; reload and retry"@,
            RecoveryAction::Refresh,
            false,
        ),
{
    AppError::new(
        ErrorCode::STALE_STATE,
        string_lit("Settings changed under you; reload and retry"),
        RecoveryAction::Refresh,
        false,
    )
}

/// A concurrent writer fails: the patch names the version it read.
pub fn check_settings_version(current: u64, settings_version: u64) -> (r: Result<(), AppError>)
    ensures
        r is Ok <==> current == settings_version,
        r matches Err(e) ==> is_error(
            e,
            ErrorCode::STALE_STATE,
            "Settings changed under you; reload and retry"@,
            RecoveryAction::Refresh,
            false,
        ),
{
    if current != settings_version {
        return Err(stale_settings());
    }
    Ok(())
}

/// A patch must set at least one known field.
pub fn empty_patch() -> (e: AppError)
    ensures
        is_error(
            e,
            ErrorCode::INVALID_ARGUMENT,
            "Empty patch: set at least one known settings field"@,
            RecoveryAction::InspectState,
            false,
        ),
{
    bad_request_str("Empty patch: set at least one known settings field")
}

/// The font scale lies outside 0.875..=1.25 (or is not finite).
pub fn font_scale_out_of_range() -> (e: AppError)
    ensures
        is_error(
            e,
            ErrorCode::INVALID_ARGUMENT,
            "Font scale must be between 0.875 and 1.25"@,
            RecoveryAction::InspectState,
            false,
        ),
{
    bad_request_str("Font scale must be between 0.875 and 1.25")
}

} // verus!
