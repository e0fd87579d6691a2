use octopus::error::ErrorCode;
use octopus::pull_request::{pr_endpoint, pr_http_error, pr_parse_response, pr_request_json};
use octopus::remote::{
    bitbucket_credential_context, bitbucket_credential_payload, check_remote_name,
    detect_pr_provider, short_oid, with_bitbucket_username, PrProvider, BITBUCKET_STATIC_USERNAME,
};
use serde_json::Value;

#[test]
fn bitbucket_context_accepts_only_cloud_https_and_never_uses_a_password_url() {
    let plain =
        bitbucket_credential_context("https://bitbucket.org/acme/widgets.git?ignored=1#fragment")
            .expect("Bitbucket HTTPS URL");
    assert_eq!(plain.host, "bitbucket.org");
    assert_eq!(plain.path, "acme/widgets.git");
    assert_eq!(plain.username, BITBUCKET_STATIC_USERNAME);

    let named =
        bitbucket_credential_context("https://CaseSensitiveUser@bitbucket.org/acme/widgets.git")
            .expect("Bitbucket HTTPS URL with username");
    assert_eq!(named.username, "CaseSensitiveUser");
    assert!(bitbucket_credential_context("git@bitbucket.org:acme/widgets.git").is_none());
    assert!(
        bitbucket_credential_context("https://bitbucket.org.evil.test/acme/widgets.git").is_none()
    );
}

#[test]
fn bitbucket_token_is_stdin_only_and_username_override_contains_no_secret() {
    let context = bitbucket_credential_context("https://bitbucket.org/acme/widgets.git")
        .expect("Bitbucket HTTPS URL");
    let payload =
        bitbucket_credential_payload(&context, "test-token-123").expect("valid API token payload");
    let text = String::from_utf8(payload).expect("credential protocol is UTF-8");
    assert!(text.contains("password=test-token-123\n"));
    assert!(text.contains("username=x-bitbucket-api-token-auth\n"));

    let argv = with_bitbucket_username(
        "https://bitbucket.org/acme/widgets.git",
        vec!["push".into(), "--progress".into()],
    );
    assert_eq!(argv[0], "-c");
    assert_eq!(argv[1], "credential.username=x-bitbucket-api-token-auth");
    assert!(!argv.join(" ").contains("test-token-123"));
    assert!(bitbucket_credential_payload(&context, "bad\ntoken").is_err());
}

#[test]
fn non_bitbucket_remotes_keep_their_argv() {
    let argv = with_bitbucket_username(
        "https://github.com/acme/widgets.git",
        vec!["fetch".into(), "origin".into()],
    );
    assert_eq!(argv, vec!["fetch".to_string(), "origin".to_string()]);
}

#[test]
fn pr_detects_github_bitbucket_and_gitlab_https_and_ssh() {
    let github = detect_pr_provider("https://github.com/acme/widgets.git").expect("github");
    assert_eq!(github.provider, PrProvider::GitHub);
    assert_eq!(github.api_base, "https://api.github.com");
    assert_eq!(github.namespace, "acme");
    assert_eq!(github.repo, "widgets");

    let ssh = detect_pr_provider("git@github.com:acme/widgets.git").expect("github ssh");
    assert_eq!(ssh.provider, PrProvider::GitHub);

    let bitbucket = detect_pr_provider("https://bitbucket.org/acme/widgets").expect("bitbucket");
    assert_eq!(bitbucket.provider, PrProvider::Bitbucket);

    let gitlab =
        detect_pr_provider("https://gitlab.com/group/sub/widgets.git").expect("gitlab subgroup");
    assert_eq!(gitlab.provider, PrProvider::GitLab);
    assert_eq!(gitlab.namespace, "group/sub");
    assert_eq!(gitlab.repo, "widgets");

    assert!(detect_pr_provider("https://example.com/acme/widgets.git").is_none());
    assert!(detect_pr_provider("git@github.com:lonely.git").is_none());
    assert!(detect_pr_provider("https://github.com/acme/widgets.git\n").is_some());
    assert!(detect_pr_provider("https://github.com/acme/widgets.git\u{7}").is_none());
    assert_eq!(
        pr_endpoint(&github),
        "https://api.github.com/repos/acme/widgets/pulls"
    );
    assert_eq!(
        pr_endpoint(&gitlab),
        "https://gitlab.com/api/v4/projects/group%2Fsub%2Fwidgets/merge_requests"
    );
}

fn parsed(text: String) -> Value {
    serde_json::from_str(&text).expect("request body is JSON")
}

#[test]
fn pr_payloads_match_each_provider_schema() {
    let feat = Value::String("feat".to_string());
    let main = Value::String("main".to_string());

    let github = parsed(pr_request_json(PrProvider::GitHub, "T", "D", "feat", "main"));
    assert_eq!(github["head"], feat);
    assert_eq!(github["base"], main);

    let bitbucket = parsed(pr_request_json(PrProvider::Bitbucket, "T", "D", "feat", "main"));
    assert_eq!(bitbucket.pointer("/source/branch/name"), Some(&feat));
    assert_eq!(bitbucket.pointer("/destination/branch/name"), Some(&main));

    let gitlab = parsed(pr_request_json(PrProvider::GitLab, "T", "D", "feat", "main"));
    assert_eq!(gitlab["source_branch"], feat);
    assert_eq!(gitlab["target_branch"], main);
}

#[test]
fn pr_request_json_escapes_quotes_and_newlines() {
    let body = parsed(pr_request_json(
        PrProvider::GitHub,
        "Say \"hi\"",
        "line1\nline2\\",
        "feat",
        "main",
    ));
    assert_eq!(body["title"], Value::String("Say \"hi\"".to_string()));
    assert_eq!(body["body"], Value::String("line1\nline2\\".to_string()));
}

#[test]
fn pr_parses_each_provider_response_and_rejects_junk() {
    let (url, reference) = pr_parse_response(
        PrProvider::GitHub,
        br#"{"html_url":"https://github.com/acme/widgets/pull/7","number":7}"#,
    )
    .expect("github response");
    assert_eq!(url, "https://github.com/acme/widgets/pull/7");
    assert_eq!(reference, "#7");

    let (url, reference) = pr_parse_response(
        PrProvider::Bitbucket,
        br#"{"id":9,"links":{"html":{"href":"https://bitbucket.org/acme/widgets/pull-requests/9"}}}"#,
    )
    .expect("bitbucket response");
    assert_eq!(url, "https://bitbucket.org/acme/widgets/pull-requests/9");
    assert_eq!(reference, "#9");

    let (url, reference) = pr_parse_response(
        PrProvider::GitLab,
        br#"{"iid":3,"web_url":"https://gitlab.com/group/widgets/-/merge_requests/3"}"#,
    )
    .expect("gitlab response");
    assert_eq!(url, "https://gitlab.com/group/widgets/-/merge_requests/3");
    assert_eq!(reference, "!3");

    assert!(pr_parse_response(PrProvider::GitHub, b"not json").is_err());
    assert!(pr_parse_response(PrProvider::GitHub, br#"{"number":1}"#).is_err());
    assert!(pr_parse_response(
        PrProvider::GitHub,
        br#"{"html_url":"http://evil.local/x","number":1}"#,
    )
    .is_err());
}

#[test]
fn pr_http_errors_map_status_codes() {
    assert_eq!(pr_http_error(401, PrProvider::GitHub, b"").code, ErrorCode::AUTH_REQUIRED);
    assert_eq!(pr_http_error(500, PrProvider::GitLab, b"{}").code, ErrorCode::NETWORK_ERROR);
}

#[test]
fn remote_names_and_short_oids() {
    assert!(check_remote_name("origin").is_ok());
    assert!(check_remote_name("").is_err());
    assert!(check_remote_name("bad name").is_err());
    assert_eq!(short_oid("0123456789abcdef"), "0123456789ab");
    assert_eq!(short_oid("abc"), "abc");
}

#[test]
fn https_remotes_with_a_user_name_are_recognised() {
    let c = detect_pr_provider("https://alice@bitbucket.org/acme/widgets.git").expect("bitbucket");
    assert_eq!(c.provider, PrProvider::Bitbucket);
    assert_eq!(c.api_base, "https://api.bitbucket.org/2.0");
    assert_eq!(c.namespace, "acme");
    assert_eq!(c.repo, "widgets");
    assert_eq!(
        octopus::remote::raw_url_host("https://alice@bitbucket.org/acme/widgets.git").as_deref(),
        Some("bitbucket.org")
    );
    let ssh = detect_pr_provider("git@bitbucket.org:acme/widgets.git").expect("bitbucket ssh");
    assert_eq!(ssh.namespace, "acme");
}
