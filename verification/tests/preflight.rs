use octopus::error::{ApiResult, ErrorCode};
use octopus::preflight::{app_preflight_reply, parse_git_version, version_supported, GitProbe};

#[test]
fn parses_plain_and_suffixed_versions() {
    assert_eq!(
        parse_git_version("git version 2.43.0\n"),
        Some(("2.43.0".to_string(), 2, 43))
    );
    assert_eq!(
        parse_git_version("git version 2.43.0.windows.1\n"),
        Some(("2.43.0.windows.1".to_string(), 2, 43))
    );
    assert_eq!(
        parse_git_version("git version 3.1\n"),
        Some(("3.1".to_string(), 3, 1))
    );
}

#[test]
fn rejects_non_git_output() {
    assert_eq!(parse_git_version(""), None);
    assert_eq!(parse_git_version("version 2.43.0\n"), None);
    assert_eq!(parse_git_version("git version x.y\n"), None);
}

#[test]
fn enforces_minimum_baseline() {
    assert!(version_supported(2, 43));
    assert!(version_supported(2, 44));
    assert!(version_supported(3, 0));
    assert!(!version_supported(2, 42));
    assert!(!version_supported(1, 99));
}

#[test]
fn preflight_reply_rejects_empty_request_id() {
    match app_preflight_reply(String::new(), GitProbe::NotFound) {
        ApiResult::Failure { error, .. } => assert_eq!(error.code, ErrorCode::INVALID_ARGUMENT),
        ApiResult::Success { .. } => panic!("expected INVALID_ARGUMENT"),
    }
}
