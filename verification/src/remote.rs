//! Remote URL policy: the Bitbucket Cloud credential context, hosting
//! provider detection for pull requests, and the remote names the sync
//! commands accept.

use vstd::prelude::*;
use crate::text::{string_views};
use crate::error::{bad_request, bad_request_str, is_error, AppError, ErrorCode, RecoveryAction};
use crate::text::{
    any_control, before_char, before_either, char_is_alphanumeric, chars_of, concat2, eq_ignore_ascii_case,
    eq_ignore_case, has_control, is_ascii_alphanumeric, lower, lower_seq, rsplit_once,
    rsplit_once_char, slice_of, split_once, split_once_char, split_once_pat, split_once_seq,
    string_lit, string_of, take_before, take_before_either, trim, trim_char, trim_matches,
    trim_str, trim_ws, utf8_len, utf8_len_exceeds, contains_char, contains_seq, drop_suffix,
    str_contains, without_suffix,
};

verus! {

pub const BITBUCKET_HOST: &'static str = "bitbucket.org";

pub const BITBUCKET_STATIC_USERNAME: &'static str = "x-bitbucket-api-token-auth";

/// Where a Bitbucket Cloud credential is stored: lower-cased host, the
/// repository path and the username the credential helper files it under.
#[derive(Debug, Clone, PartialEq, Eq)]
pub struct BitbucketCredentialContext {
    pub host: String,
    pub path: String,
    pub username: String,
}

pub open spec fn bitbucket_host() -> Seq<char> {
    seq!['b', 'i', 't', 'b', 'u', 'c', 'k', 'e', 't', '.', 'o', 'r', 'g']
}

pub open spec fn static_username() -> Seq<char> {
    BITBUCKET_STATIC_USERNAME@
}

/// Userinfo (if any) and host of an URL authority, split at the last `@`.
pub open spec fn split_authority(authority: Seq<char>) -> (Option<Seq<char>>, Seq<char>) {
    match rsplit_once(authority, '@') {
        Some((userinfo, host)) => (Some(userinfo), host),
        None => (None, authority),
    }
}

/// The repository path of an URL path: query and fragment dropped, outer
/// slashes trimmed.
pub open spec fn clean_path(raw_path: Seq<char>) -> Seq<char> {
    trim_char(before_either(raw_path, '?', '#'), '/')
}

pub open spec fn credential_username(userinfo: Option<Seq<char>>) -> Seq<char> {
    match userinfo {
        Some(u) => if before_char(u, ':').len() > 0 {
            before_char(u, ':')
        } else {
            static_username()
        },
        None => static_username(),
    }
}

/// `host` names Bitbucket Cloud: `bitbucket.org`, optionally with port 443.
pub open spec fn bitbucket_host_ok(host: Seq<char>) -> bool {
    eq_ignore_ascii_case(before_char(host, ':'), bitbucket_host()) && (eq_ignore_ascii_case(
        host,
        bitbucket_host(),
    ) || eq_ignore_ascii_case(host, "bitbucket.org:443"@))
}

/// The context once userinfo, host and raw path are known.
pub open spec fn bitbucket_context_parts(
    userinfo: Option<Seq<char>>,
    host: Seq<char>,
    raw_path: Seq<char>,
) -> Option<(Seq<char>, Seq<char>, Seq<char>)> {
    let path = clean_path(raw_path);
    let username = credential_username(userinfo);
    if !bitbucket_host_ok(host) || path.len() == 0 || has_control(username) {
        None
    } else {
        Some((lower_seq(host), path, username))
    }
}

/// The context of the part of an URL after `://`.
pub open spec fn bitbucket_context_rest(rest: Seq<char>) -> Option<(Seq<char>, Seq<char>, Seq<char>)> {
    match split_once(rest, '/') {
        None => None,
        Some((authority, raw_path)) => {
            let (userinfo, host) = split_authority(authority);
            bitbucket_context_parts(userinfo, host, raw_path)
        },
    }
}

/// The Bitbucket Cloud HTTPS credential context of `url`, if it has one:
/// no control chars, an `https` scheme, host `bitbucket.org` (optionally
/// with port 443) and a non-empty repository path.
pub open spec fn bitbucket_context_of(url: Seq<char>) -> Option<(Seq<char>, Seq<char>, Seq<char>)> {
    if has_control(url) {
        None
    } else {
        match split_once_seq(trim(url), "://"@) {
            None => None,
            Some((scheme, rest)) => if !eq_ignore_ascii_case(scheme, "https"@) {
                None
            } else {
                bitbucket_context_rest(rest)
            },
        }
    }
}

pub open spec fn context_is(
    c: BitbucketCredentialContext,
    v: (Seq<char>, Seq<char>, Seq<char>),
) -> bool {
    c.host@ == v.0 && c.path@ == v.1 && c.username@ == v.2
}

fn bitbucket_host_check(host: &Vec<char>) -> (r: bool)
    ensures
        r == bitbucket_host_ok(host@),
{
    let bb = chars_of(BITBUCKET_HOST);
    assert(bb@ == bitbucket_host()) by {
        reveal_strlit("bitbucket.org");
    }
    let host_name = take_before(host, ':');
    eq_ignore_case(&host_name, &bb) && (eq_ignore_case(host, &bb) || eq_ignore_case(
        host,
        &chars_of("bitbucket.org:443"),
    ))
}

fn bitbucket_parts(userinfo: Option<Vec<char>>, host: &Vec<char>, raw_path: &Vec<char>) -> (r:
    Option<BitbucketCredentialContext>)
    ensures
        ({
            let u = match userinfo {
                Some(v) => Some(v@),
                None => None,
            };
            match r {
                Some(c) => bitbucket_context_parts(u, host@, raw_path@) matches Some(v)
                    && context_is(c, v),
                None => bitbucket_context_parts(u, host@, raw_path@) is None,
            }
        }),
{
    if !bitbucket_host_check(host) {
        return None;
    }
    let path = trim_matches(&take_before_either(raw_path, '?', '#'), '/');
    if path.len() == 0 {
        return None;
    }
    let username = match userinfo {
        Some(u) => {
            let first = take_before(&u, ':');
            if first.len() > 0 {
                first
            } else {
                chars_of(BITBUCKET_STATIC_USERNAME)
            }
        },
        None => chars_of(BITBUCKET_STATIC_USERNAME),
    };
    if any_control(&username) {
        return None;
    }
    Some(
        BitbucketCredentialContext {
            host: string_of(lower(host).as_slice()),
            path: string_of(path.as_slice()),
            username: string_of(username.as_slice()),
        },
    )
}

fn bitbucket_rest(rest: &Vec<char>) -> (r: Option<BitbucketCredentialContext>)
    ensures
        match r {
            Some(c) => bitbucket_context_rest(rest@) matches Some(v) && context_is(c, v),
            None => bitbucket_context_rest(rest@) is None,
        },
{
    let (authority, raw_path) = match split_once_char(rest, '/') {
        Some(p) => p,
        None => return None,
    };
    match rsplit_once_char(&authority, '@') {
        Some((u, h)) => bitbucket_parts(Some(u), &h, &raw_path),
        None => bitbucket_parts(None, &authority, &raw_path),
    }
}

/// Parse only Bitbucket Cloud HTTPS URLs. Bitbucket Data Center and SSH
/// remotes keep their own credential/agent flows and never enter here.
pub fn bitbucket_credential_context(url: &str) -> (r: Option<BitbucketCredentialContext>)
    ensures
        match r {
            Some(c) => bitbucket_context_of(url@) matches Some(v) && context_is(c, v),
            None => bitbucket_context_of(url@) is None,
        },
{
    let all = chars_of(url);
    if any_control(&all) {
        return None;
    }
    let (scheme, rest) = match split_once_pat(&trim_ws(&all), "://") {
        Some(p) => p,
        None => return None,
    };
    if !eq_ignore_case(&scheme, &chars_of("https")) {
        return None;
    }
    bitbucket_rest(&rest)
}

/// Prefix a Git command with `-c credential.username=<user>` when the
/// remote is a Bitbucket Cloud HTTPS URL; otherwise keep it unchanged.
pub fn with_bitbucket_username(url: &str, command: Vec<String>) -> (r: Vec<String>)
    ensures
        match bitbucket_context_of(url@) {
            Some(v) => r@.len() == command@.len() + 2 && r@[0]@ == "-c"@ && r@[1]@
                == "credential.username="@ + v.2 && r@.subrange(2, r@.len() as int)
                == command@,
            None => r@ == command@,
        },
{
    let context = match bitbucket_credential_context(url) {
        Some(c) => c,
        None => return command,
    };
    let mut argv: Vec<String> = Vec::new();
    argv.push(string_lit("-c"));
    argv.push(concat2("credential.username=", context.username.as_str()));
    let mut i: usize = 0;
    while i < command.len()
        invariant
            i <= command.len(),
            argv@.len() == i + 2,
            argv@[0]@ == "-c"@,
            argv@[1]@ == "credential.username="@ + context.username@,
            argv@.subrange(2, argv@.len() as int) == command@.take(i as int),
        decreases command.len() - i,
    {
        argv.push(command[i].clone());
        proof {
            assert(argv@.subrange(2, argv@.len() as int) =~= command@.take(i + 1));
        }
        i += 1;
    }
    assert(command@.take(i as int) =~= command@);
    argv
}

/// The words a Bitbucket Cloud HTTPS remote puts before a Git command:
/// `-c credential.username=<user>`; none for any other remote.
#[verifier::opaque]
pub open spec fn username_override(url: Seq<char>) -> Seq<Seq<char>> {
    match bitbucket_context_of(url) {
        Some(v) => seq!["-c"@, "credential.username="@ + v.2],
        None => Seq::empty(),
    }
}

/// [`with_bitbucket_username`], stated over the words.
#[verifier::rlimit(40)]
pub fn with_username_override(url: &str, command: Vec<String>) -> (r: Vec<String>)
    ensures
        string_views(r@) == username_override(url@) + string_views(command@),
{
    let ghost words = string_views(command@);
    let r = with_bitbucket_username(url, command);
    proof {
        reveal(username_override);
        match bitbucket_context_of(url@) {
            Some(v) => {
                assert forall|i: int| 2 <= i < r@.len() implies string_views(r@)[i] == words[i - 2] by {
                    assert(r@.subrange(2, r@.len() as int)[i - 2] == r@[i]);
                }
                assert(string_views(r@) =~= seq!["-c"@, "credential.username="@ + v.2] + words);
            },
            None => {
                assert(string_views(r@) =~= Seq::<Seq<char>>::empty() + words);
            },
        }
    }
    r
}

/// The `git credential approve` input for a Bitbucket API token.
pub open spec fn credential_payload_text(
    host: Seq<char>,
    path: Seq<char>,
    username: Seq<char>,
    token: Seq<char>,
) -> Seq<char> {
    "protocol=https\nhost="@ + host + "\npath="@ + path + "\nusername="@ + username
        + "\npassword="@ + token + "\n\n"@
}

/// A token is usable when, trimmed, it is non-empty, at most 4096 bytes
/// and free of control chars.
pub open spec fn token_ok(token: Seq<char>) -> bool {
    trim(token).len() > 0 && utf8_len(trim(token)) <= 4096 && !has_control(trim(token))
}

/// The token travels only through this stdin payload; it never enters
/// argv, the environment, an URL or a log.
pub fn bitbucket_credential_payload(context: &BitbucketCredentialContext, api_token: &str) -> (r:
    Result<Vec<u8>, AppError>)
    ensures
        match r {
            Ok(bytes) => token_ok(api_token@) && bytes@ == vstd::utf8::encode_utf8(
                credential_payload_text(
                    context.host@,
                    context.path@,
                    context.username@,
                    trim(api_token@),
                ),
            ),
            Err(e) => !token_ok(api_token@) && is_error(
                e,
                ErrorCode::INVALID_ARGUMENT,
                "Bitbucket API token is empty or invalid"@,
                RecoveryAction::InspectState,
                false,
            ),
        },
{
    let token = trim_str(api_token);
    if token.len() == 0 || utf8_len_exceeds(&token, 4096) || any_control(&token) {
        return Err(bad_request_str("Bitbucket API token is empty or invalid"));
    }
    let token_text = string_of(token.as_slice());
    let mut text = concat2("protocol=https\nhost=", context.host.as_str());
    text.append("\npath=");
    text.append(context.path.as_str());
    text.append("\nusername=");
    text.append(context.username.as_str());
    text.append("\npassword=");
    text.append(token_text.as_str());
    text.append("\n\n");
    Ok(text.as_str().as_bytes_vec())
}

/// A remote name: 1..=250 bytes of ASCII letters, digits and `._-/`.
pub open spec fn remote_name_char(c: char) -> bool {
    is_ascii_alphanumeric(c) || c == '.' || c == '_' || c == '-' || c == '/'
}

pub open spec fn remote_name_ok(name: Seq<char>) -> bool {
    name.len() > 0 && utf8_len(name) <= 250 && forall|i: int|
        0 <= i < name.len() ==> remote_name_char(#[trigger] name[i])
}

pub fn check_remote_name(name: &str) -> (r: Result<(), AppError>)
    ensures
        match r {
            Ok(()) => name@.len() > 0 && utf8_len(name@) <= 250 && forall|i: int|
                0 <= i < name@.len() ==> remote_name_char(#[trigger] name@[i]),
            Err(e) => if name@.len() == 0 || utf8_len(name@) > 250 {
                is_error(
                    e,
                    ErrorCode::INVALID_ARGUMENT,
                    "Remote name is empty or too long"@,
                    RecoveryAction::InspectState,
                    false,
                )
            } else {
                (exists|i: int| 0 <= i < name@.len() && !remote_name_char(#[trigger] name@[i]))
                    && is_error(
                    e,
                    ErrorCode::INVALID_ARGUMENT,
                    "Remote name has unsupported characters"@,
                    RecoveryAction::InspectState,
                    false,
                )
            },
        },
{
    let v = chars_of(name);
    if v.len() == 0 || utf8_len_exceeds(&v, 250) {
        return Err(bad_request_str("Remote name is empty or too long"));
    }
    let mut i: usize = 0;
    while i < v.len()
        invariant
            i <= v.len(),
            v@ == name@,
            v@.len() > 0,
            utf8_len(v@) <= 250,
            forall|j: int| 0 <= j < i ==> remote_name_char(#[trigger] v@[j]),
        decreases v.len() - i,
    {
        let c = v[i];
        if !(char_is_alphanumeric(c) || c == '.' || c == '_' || c == '-' || c == '/') {
            assert(!remote_name_char(name@[i as int]));
            return Err(bad_request_str("Remote name has unsupported characters"));
        }
        i += 1;
    }
    Ok(())
}

/// The first 12 chars of an object id, for summaries.
pub fn short_oid(oid: &str) -> (r: String)
    ensures
        r@ == oid@.take(if oid@.len() < 12 {
            oid@.len() as int
        } else {
            12
        }),
{
    let v = chars_of(oid);
    let n: usize = if v.len() < 12 {
        v.len()
    } else {
        12
    };
    let s = slice_of(&v, 0, n);
    assert(s@ =~= oid@.take(n as int));
    string_of(s.as_slice())
}

} // verus!

verus! {

// ---------------------------------------------------------------------------
// Pull request providers
// ---------------------------------------------------------------------------

/// Hosting providers that pull (merge) requests can be created on.
#[derive(Debug, Clone, Copy, PartialEq, Eq, Structural)]
pub enum PrProvider {
    Bitbucket,
    GitHub,
    GitLab,
}

impl PrProvider {
    pub open spec fn spec_name(self) -> Seq<char> {
        match self {
            PrProvider::Bitbucket => "bitbucket"@,
            PrProvider::GitHub => "github"@,
            PrProvider::GitLab => "gitlab"@,
        }
    }

    pub fn name(self) -> (r: &'static str)
        ensures
            r@ == self.spec_name(),
    {
        match self {
            PrProvider::Bitbucket => "bitbucket",
            PrProvider::GitHub => "github",
            PrProvider::GitLab => "gitlab",
        }
    }
}

/// Owner/workspace + repository coordinates parsed from a remote URL.
#[derive(Debug, Clone, PartialEq, Eq)]
pub struct PrCoords {
    pub provider: PrProvider,
    /// API base without trailing slash.
    pub api_base: String,
    /// `owner`, `workspace`, or full subgroup path (`group/sub`).
    pub namespace: String,
    pub repo: String,
}

/// `str::split('/')` yields no empty segment.
pub open spec fn no_empty_segment(s: Seq<char>) -> bool {
    &&& s.len() > 0
    &&& s[0] != '/'
    &&& s.last() != '/'
    &&& forall|i: int| 0 <= i < s.len() - 1 ==> !(#[trigger] s[i] == '/' && s[i + 1] == '/')
}

/// Split `owner/repo`-style paths at the last `/`; rejects empty segments.
pub open spec fn namespace_repo_of(path: Seq<char>) -> Option<(Seq<char>, Seq<char>)> {
    match rsplit_once(trim_char(path, '/'), '/') {
        None => None,
        Some((namespace, repo)) => if repo.len() == 0 || !no_empty_segment(namespace) {
            None
        } else {
            Some((namespace, repo))
        },
    }
}

fn segments_ok(v: &Vec<char>) -> (r: bool)
    ensures
        r == no_empty_segment(v@),
{
    if v.len() == 0 || v[0] == '/' || v[v.len() - 1] == '/' {
        return false;
    }
    let mut i: usize = 0;
    while i + 1 < v.len()
        invariant
            v.len() > 0,
            i < v.len(),
            forall|j: int| 0 <= j < i ==> !(#[trigger] v@[j] == '/' && v@[j + 1] == '/'),
        decreases v.len() - i,
    {
        if v[i] == '/' && v[i + 1] == '/' {
            return false;
        }
        i += 1;
    }
    true
}

pub fn split_namespace_repo(path: &Vec<char>) -> (r: Option<(Vec<char>, Vec<char>)>)
    ensures
        match r {
            Some((n, p)) => namespace_repo_of(path@) == Some((n@, p@)),
            None => namespace_repo_of(path@) is None,
        },
{
    let trimmed = trim_matches(path, '/');
    let (namespace, repo) = match rsplit_once_char(&trimmed, '/') {
        Some(p) => p,
        None => return None,
    };
    if repo.len() == 0 || !segments_ok(&namespace) {
        return None;
    }
    Some((namespace, repo))
}

pub open spec fn api_base_of(provider: PrProvider) -> Seq<char> {
    match provider {
        PrProvider::GitHub => "https://api.github.com"@,
        PrProvider::Bitbucket => "https://api.bitbucket.org/2.0"@,
        PrProvider::GitLab => "https://gitlab.com/api/v4"@,
    }
}

/// Provider, API base, namespace and repository for a host and path.
/// GitHub and Bitbucket take a single-segment owner; GitLab also takes
/// subgroups.
pub open spec fn coords_of(host: Seq<char>, path: Seq<char>) -> Option<
    (PrProvider, Seq<char>, Seq<char>),
> {
    if path.len() == 0 {
        None
    } else {
        match namespace_repo_of(path) {
            None => None,
            Some((namespace, repo)) => if eq_ignore_ascii_case(host, "github.com"@) {
                if namespace.contains('/') {
                    None
                } else {
                    Some((PrProvider::GitHub, namespace, repo))
                }
            } else if eq_ignore_ascii_case(host, "bitbucket.org"@) {
                if namespace.contains('/') {
                    None
                } else {
                    Some((PrProvider::Bitbucket, namespace, repo))
                }
            } else if eq_ignore_ascii_case(host, "gitlab.com"@) {
                Some((PrProvider::GitLab, namespace, repo))
            } else {
                None
            },
        }
    }
}

pub open spec fn coords_is(c: PrCoords, v: (PrProvider, Seq<char>, Seq<char>)) -> bool {
    c.provider == v.0 && c.api_base@ == api_base_of(v.0) && c.namespace@ == v.1 && c.repo@ == v.2
}

fn api_base(provider: PrProvider) -> (r: String)
    ensures
        r@ == api_base_of(provider),
{
    match provider {
        PrProvider::GitHub => string_lit("https://api.github.com"),
        PrProvider::Bitbucket => string_lit("https://api.bitbucket.org/2.0"),
        PrProvider::GitLab => string_lit("https://gitlab.com/api/v4"),
    }
}

pub fn coords_for_host(host: &Vec<char>, path: &Vec<char>) -> (r: Option<PrCoords>)
    ensures
        match r {
            Some(c) => coords_of(host@, path@) matches Some(v) && coords_is(c, v),
            None => coords_of(host@, path@) is None,
        },
{
    if path.len() == 0 {
        return None;
    }
    let (namespace, repo) = match split_namespace_repo(path) {
        Some(p) => p,
        None => return None,
    };
    let provider = if eq_ignore_case(host, &chars_of("github.com")) {
        if contains_char(&namespace, '/') {
            return None;
        }
        PrProvider::GitHub
    } else if eq_ignore_case(host, &chars_of("bitbucket.org")) {
        if contains_char(&namespace, '/') {
            return None;
        }
        PrProvider::Bitbucket
    } else if eq_ignore_case(host, &chars_of("gitlab.com")) {
        PrProvider::GitLab
    } else {
        return None;
    };
    Some(
        PrCoords {
            provider,
            api_base: api_base(provider),
            namespace: string_of(namespace.as_slice()),
            repo: string_of(repo.as_slice()),
        },
    )
}

/// Repository path of a remote URL path: query and fragment dropped, outer
/// slashes trimmed and a trailing `.git` removed.
pub open spec fn repo_path(raw: Seq<char>) -> Seq<char> {
    without_suffix(clean_path(raw), ".git"@)
}

/// Coordinates of the SSH short form `user@host:path`.
pub open spec fn ssh_coords(user: Seq<char>, after: Seq<char>) -> Option<
    (PrProvider, Seq<char>, Seq<char>),
> {
    if user.len() == 0 || user.contains('/') || user.contains(':') {
        None
    } else {
        match split_once(after, ':') {
            None => None,
            Some((host, path)) => if host.len() == 0 || path.len() == 0 || contains_seq(
                path,
                "://"@,
            ) {
                None
            } else {
                coords_of(host, repo_path(path))
            },
        }
    }
}

/// Coordinates of an `http(s)://[userinfo@]host[:port]/path` URL, given the
/// part after `://`.
pub open spec fn http_coords(rest: Seq<char>) -> Option<(PrProvider, Seq<char>, Seq<char>)> {
    let rest = match rsplit_once(rest, '@') {
        Some((_, after)) => after,
        None => rest,
    };
    match split_once(rest, '/') {
        None => None,
        Some((authority, path)) => {
            let host = before_char(authority, ':');
            if host.len() == 0 {
                None
            } else {
                coords_of(host, repo_path(path))
            }
        },
    }
}

/// Normalize a remote URL into provider coordinates. Accepts HTTP(S) URLs,
/// with or without userinfo, and the `git@host:path` SSH form; a URL with
/// `://` is never read as the SSH form.
pub open spec fn pr_coords_of(remote_url: Seq<char>) -> Option<(PrProvider, Seq<char>, Seq<char>)> {
    let url = trim(remote_url);
    if has_control(url) {
        None
    } else {
        match split_once_seq(url, "://"@) {
            Some((scheme, rest)) => if !(eq_ignore_ascii_case(scheme, "https"@)
                || eq_ignore_ascii_case(scheme, "http"@)) {
                None
            } else {
                http_coords(rest)
            },
            None => match split_once(url, '@') {
                Some((user, after)) => ssh_coords(user, after),
                None => None,
            },
        }
    }
}

fn clean_repo_path(raw: &Vec<char>) -> (r: Vec<char>)
    ensures
        r@ == repo_path(raw@),
{
    let p = trim_matches(&take_before_either(raw, '?', '#'), '/');
    drop_suffix(&p, &chars_of(".git"))
}

fn ssh_form(user: &Vec<char>, after: &Vec<char>) -> (r: Option<PrCoords>)
    ensures
        match r {
            Some(c) => ssh_coords(user@, after@) matches Some(v) && coords_is(c, v),
            None => ssh_coords(user@, after@) is None,
        },
{
    if user.len() == 0 || contains_char(user, '/') || contains_char(user, ':') {
        return None;
    }
    let (host, path) = match split_once_char(after, ':') {
        Some(p) => p,
        None => return None,
    };
    if host.len() == 0 || path.len() == 0 || str_contains(&path, "://") {
        return None;
    }
    coords_for_host(&host, &clean_repo_path(&path))
}

fn http_form(rest: &Vec<char>) -> (r: Option<PrCoords>)
    ensures
        match r {
            Some(c) => http_coords(rest@) matches Some(v) && coords_is(c, v),
            None => http_coords(rest@) is None,
        },
{
    let rest = match rsplit_once_char(rest, '@') {
        Some((_, after)) => after,
        None => rest.clone(),
    };
    let (authority, path) = match split_once_char(&rest, '/') {
        Some(p) => p,
        None => return None,
    };
    let host = take_before(&authority, ':');
    if host.len() == 0 {
        return None;
    }
    coords_for_host(&host, &clean_repo_path(&path))
}

pub fn detect_pr_provider(remote_url: &str) -> (r: Option<PrCoords>)
    ensures
        match r {
            Some(c) => pr_coords_of(remote_url@) matches Some(v) && coords_is(c, v),
            None => pr_coords_of(remote_url@) is None,
        },
{
    let url = trim_str(remote_url);
    if any_control(&url) {
        return None;
    }
    match split_once_pat(&url, "://") {
        Some((scheme, rest)) => {
            if !(eq_ignore_case(&scheme, &chars_of("https")) || eq_ignore_case(
                &scheme,
                &chars_of("http"),
            )) {
                return None;
            }
            http_form(&rest)
        },
        None => match split_once_char(&url, '@') {
            Some((user, after)) => ssh_form(&user, &after),
            None => None,
        },
    }
}

/// Host part of an HTTP(S) or SSH remote URL, lowercased; as with
/// `pr_coords_of`, a URL with `://` is read as HTTP(S) and its userinfo is
/// skipped.
pub open spec fn url_host_of(remote_url: Seq<char>) -> Option<Seq<char>> {
    match split_once_seq(remote_url, "://"@) {
        Some((_, rest)) => {
            let rest = match rsplit_once(rest, '@') {
                Some((_, after)) => after,
                None => rest,
            };
            let host = before_char(before_char(rest, '/'), ':');
            if host.len() == 0 {
                None
            } else {
                Some(lower_seq(host))
            }
        },
        None => match split_once(remote_url, '@') {
            Some((_, after)) => match split_once(after, ':') {
                None => None,
                Some((host, _)) => if host.len() == 0 {
                    None
                } else {
                    Some(lower_seq(host))
                },
            },
            None => None,
        },
    }
}

pub fn raw_url_host(remote_url: &str) -> (r: Option<String>)
    ensures
        match r {
            Some(h) => url_host_of(remote_url@) == Some(h@),
            None => url_host_of(remote_url@) is None,
        },
{
    let url = chars_of(remote_url);
    match split_once_pat(&url, "://") {
        Some((_, rest)) => {
            let rest = match rsplit_once_char(&rest, '@') {
                Some((_, after)) => after,
                None => rest,
            };
            let host = take_before(&take_before(&rest, '/'), ':');
            if host.len() == 0 {
                return None;
            }
            Some(string_of(lower(&host).as_slice()))
        },
        None => {
            let (_, after) = match split_once_char(&url, '@') {
                Some(p) => p,
                None => return None,
            };
            let (host, _) = match split_once_char(&after, ':') {
                Some(p) => p,
                None => return None,
            };
            if host.len() == 0 {
                return None;
            }
            Some(string_of(lower(&host).as_slice()))
        },
    }
}

} // verus!
