//! Pull (merge) request creation on the hosting provider: the endpoint,
//! the request body, the user text checks, and how provider replies and
//! HTTP failures are read. The HTTP exchange itself is I/O.

use vstd::prelude::*;
use crate::error::{bad_request, is_error, AppError, ErrorCode, RecoveryAction};
use crate::num::{dec, dec_chars, hex_digit_upper};
use crate::remote::{PrCoords, PrProvider};
use crate::text::{
    any_control, chars_of, concat2, has_control, has_prefix, string_lit, string_of, trim, trim_str,
    utf8_len, utf8_len_exceeds,
};

verus! {

// ---------------------------------------------------------------------------
// JSON, as serde_json reads and writes it
// ---------------------------------------------------------------------------

/// The string that the JSON pointer `pointer` names in the JSON document
/// `body`, if `body` parses and that value is a string.
pub uninterp spec fn json_str_at(body: Seq<u8>, pointer: Seq<char>) -> Option<Seq<char>>;

/// The unsigned integer that `pointer` names in `body`, if `body` parses
/// and that value is a non-negative integer that fits in `u64`.
pub uninterp spec fn json_u64_at(body: Seq<u8>, pointer: Seq<char>) -> Option<u64>;

/// Whether `body` parses as JSON and `pointer` names a value in it.
pub uninterp spec fn json_has_at(body: Seq<u8>, pointer: Seq<char>) -> bool;

/// A lowercase hex digit.
pub open spec fn hex_lower(d: nat) -> char {
    if d < 10 {
        (48 + d) as char
    } else {
        (87 + d) as char
    }
}

/// How serde_json writes one char inside a string literal: `"` and `\`
/// escaped, the short escapes `\b \t \n \f \r`, `\u00xx` (lowercase hex)
/// for the other chars below U+0020, every other char as itself.
pub open spec fn json_char(c: char) -> Seq<char> {
    if c == '"' {
        seq!['\\', '"']
    } else if c == '\\' {
        seq!['\\', '\\']
    } else if c == '\u{8}' {
        seq!['\\', 'b']
    } else if c == '\t' {
        seq!['\\', 't']
    } else if c == '\n' {
        seq!['\\', 'n']
    } else if c == '\u{c}' {
        seq!['\\', 'f']
    } else if c == '\r' {
        seq!['\\', 'r']
    } else if (c as u32) < 0x20 {
        seq!['\\', 'u', '0', '0', hex_lower((c as u32 / 16) as nat), hex_lower((c as u32 % 16) as nat)]
    } else {
        seq![c]
    }
}

pub open spec fn json_chars(s: Seq<char>) -> Seq<char>
    decreases s.len(),
{
    if s.len() == 0 {
        Seq::empty()
    } else {
        json_chars(s.drop_last()) + json_char(s.last())
    }
}

/// serde_json's encoding of a string as a JSON string literal.
pub open spec fn json_string(s: Seq<char>) -> Seq<char> {
    seq!['"'] + json_chars(s) + seq!['"']
}

/// `serde_json::from_slice::<Value>` then `Value::pointer` then
/// `Value::as_str`: the result is the string the pointer names, as a
/// function of the bytes and the pointer alone.
#[verifier::external_body]
fn json_field_str(body: &[u8], pointer: &str) -> (r: Option<String>)
    ensures
        match r {
            Some(s) => json_str_at(body@, pointer@) == Some(s@),
            None => json_str_at(body@, pointer@) is None,
        },
{
    let value: serde_json::Value = serde_json::from_slice(body).ok()?;
    value.pointer(pointer)?.as_str().map(|s| s.to_string())
}

/// `serde_json::from_slice::<Value>` then `Value::pointer` then
/// `Value::as_u64`.
#[verifier::external_body]
fn json_field_u64(body: &[u8], pointer: &str) -> (r: Option<u64>)
    ensures
        r == json_u64_at(body@, pointer@),
{
    let value: serde_json::Value = serde_json::from_slice(body).ok()?;
    value.pointer(pointer)?.as_u64()
}

/// `serde_json::from_slice::<Value>` then `Value::pointer(..).is_some()`.
#[verifier::external_body]
fn json_field_present(body: &[u8], pointer: &str) -> (r: bool)
    ensures
        r == json_has_at(body@, pointer@),
{
    match serde_json::from_slice::<serde_json::Value>(body) {
        Ok(value) => value.pointer(pointer).is_some(),
        Err(_) => false,
    }
}

/// `serde_json::to_string` of a string (which cannot fail for a `&str`):
/// the quoted literal, escaped by serde_json's escape table as `json_string`
/// spells out.
#[verifier::external_body]
fn json_quote(s: &str) -> (r: String)
    ensures
        r@ == json_string(s@),
{
    serde_json::to_string(s).unwrap_or_default()
}

// ---------------------------------------------------------------------------
// Endpoint
// ---------------------------------------------------------------------------

pub open spec fn unreserved_byte(b: u8) -> bool {
    (0x30 <= b && b <= 0x39) || (0x41 <= b && b <= 0x5a) || (0x61 <= b && b <= 0x7a) || b == 0x2d
        || b == 0x5f || b == 0x2e || b == 0x7e
}

/// One byte of a percent-encoded path: unreserved bytes stay, every other
/// byte becomes `%XX` (upper-case hex).
pub open spec fn pct_byte(b: u8) -> Seq<char> {
    if unreserved_byte(b) {
        seq![b as char]
    } else {
        seq!['%', hex_digit_upper((b / 16) as nat), hex_digit_upper((b % 16) as nat)]
    }
}

pub open spec fn pct_encode(bytes: Seq<u8>) -> Seq<char>
    decreases bytes.len(),
{
    if bytes.len() == 0 {
        Seq::empty()
    } else {
        pct_encode(bytes.drop_last()) + pct_byte(bytes.last())
    }
}

/// GitLab project id: `namespace/repo` percent-encoded, so every `/`
/// becomes `%2F` (`group/sub/repo` -> `group%2Fsub%2Frepo`).
pub open spec fn gitlab_project(namespace: Seq<char>, repo: Seq<char>) -> Seq<char> {
    pct_encode(vstd::utf8::encode_utf8(namespace + "/"@ + repo))
}

fn upper_hex(n: u8) -> (c: char)
    requires
        n < 16,
    ensures
        c == hex_digit_upper(n as nat),
{
    if n < 10 {
        (n + 48) as char
    } else {
        (n + 55) as char
    }
}

pub fn gitlab_encode_project(namespace: &str, repo: &str) -> (r: String)
    ensures
        r@ == gitlab_project(namespace@, repo@),
{
    let mut joined = concat2(namespace, "/");
    joined.append(repo);
    let bytes = joined.as_str().as_bytes();
    let ghost b = bytes@;
    assert(b == vstd::utf8::encode_utf8(namespace@ + "/"@ + repo@));
    let mut out: Vec<char> = Vec::new();
    let mut i: usize = 0;
    while i < bytes.len()
        invariant
            i <= bytes@.len(),
            b == bytes@,
            out@ == pct_encode(b.take(i as int)),
        decreases bytes.len() - i,
    {
        let x = bytes[i];
        proof {
            assert(b.take(i + 1).drop_last() =~= b.take(i as int));
            assert(b.take(i + 1).last() == x);
        }
        if (0x30 <= x && x <= 0x39) || (0x41 <= x && x <= 0x5a) || (0x61 <= x && x <= 0x7a) || x
            == 0x2d || x == 0x5f || x == 0x2e || x == 0x7e {
            out.push(x as char);
            assert(out@ =~= pct_encode(b.take(i as int)) + seq![x as char]);
        } else {
            out.push('%');
            out.push(upper_hex(x / 16));
            out.push(upper_hex(x % 16));
            assert(out@ =~= pct_encode(b.take(i as int)) + seq![
                '%',
                hex_digit_upper((x / 16) as nat),
                hex_digit_upper((x % 16) as nat),
            ]);
        }
        i += 1;
    }
    assert(b.take(i as int) =~= b);
    string_of(out.as_slice())
}

/// The REST endpoint that creates a pull (merge) request.
pub open spec fn endpoint_of(
    provider: PrProvider,
    api_base: Seq<char>,
    namespace: Seq<char>,
    repo: Seq<char>,
) -> Seq<char> {
    match provider {
        PrProvider::GitHub => api_base + "/repos/"@ + namespace + "/"@ + repo + "/pulls"@,
        PrProvider::Bitbucket => api_base + "/repositories/"@ + namespace + "/"@ + repo
            + "/pullrequests"@,
        PrProvider::GitLab => api_base + "/projects/"@ + gitlab_project(namespace, repo)
            + "/merge_requests"@,
    }
}

pub fn pr_endpoint(coords: &PrCoords) -> (r: String)
    ensures
        r@ == endpoint_of(coords.provider, coords.api_base@, coords.namespace@, coords.repo@),
{
    let mut r = coords.api_base.clone();
    match coords.provider {
        PrProvider::GitHub => {
            r.append("/repos/");
            r.append(coords.namespace.as_str());
            r.append("/");
            r.append(coords.repo.as_str());
            r.append("/pulls");
        },
        PrProvider::Bitbucket => {
            r.append("/repositories/");
            r.append(coords.namespace.as_str());
            r.append("/");
            r.append(coords.repo.as_str());
            r.append("/pullrequests");
        },
        PrProvider::GitLab => {
            let project = gitlab_encode_project(coords.namespace.as_str(), coords.repo.as_str());
            r.append("/projects/");
            r.append(project.as_str());
            r.append("/merge_requests");
        },
    }
    r
}

// ---------------------------------------------------------------------------
// Request body and user text
// ---------------------------------------------------------------------------

/// A title or description: trimmed, non-empty, at most `max_len` bytes and
/// free of control chars.
pub open spec fn pr_text_ok(value: Seq<char>, max_len: nat) -> bool {
    trim(value).len() > 0 && utf8_len(trim(value)) <= max_len && !has_control(trim(value))
}

pub fn check_pr_text(value: &str, field: &str, max_len: usize) -> (r: Result<String, AppError>)
    ensures
        match r {
            Ok(s) => pr_text_ok(value@, max_len as nat) && s@ == trim(value@),
            Err(e) => !pr_text_ok(value@, max_len as nat) && is_error(
                e,
                ErrorCode::INVALID_ARGUMENT,
                field@ + " is empty or invalid"@,
                RecoveryAction::InspectState,
                false,
            ),
        },
{
    let trimmed = trim_str(value);
    if trimmed.len() == 0 || utf8_len_exceeds(&trimmed, max_len) || any_control(&trimmed) {
        return Err(bad_request(concat2(field, " is empty or invalid")));
    }
    Ok(string_of(trimmed.as_slice()))
}

/// The JSON body of the create request, keys in serde_json's (sorted)
/// object order.
pub open spec fn request_body_of(
    provider: PrProvider,
    title: Seq<char>,
    description: Seq<char>,
    source: Seq<char>,
    target: Seq<char>,
) -> Seq<char> {
    match provider {
        PrProvider::GitHub => "{\"base\":"@ + json_string(target) + ",\"body\":"@ + json_string(
            description,
        ) + ",\"head\":"@ + json_string(source) + ",\"title\":"@ + json_string(title) + "}"@,
        PrProvider::Bitbucket => "{\"description\":"@ + json_string(description)
            + ",\"destination\":{\"branch\":{\"name\":"@ + json_string(target)
            + "}},\"source\":{\"branch\":{\"name\":"@ + json_string(source) + "}},\"title\":"@
            + json_string(title) + "}"@,
        PrProvider::GitLab => "{\"description\":"@ + json_string(description)
            + ",\"source_branch\":"@ + json_string(source) + ",\"target_branch\":"@ + json_string(
            target,
        ) + ",\"title\":"@ + json_string(title) + "}"@,
    }
}

/// The value of one hex digit (either case); other chars read as 0.
pub open spec fn hex_value(c: char) -> int {
    let n = c as u32;
    if 48 <= n && n <= 57 {
        n - 48
    } else if 97 <= n && n <= 102 {
        n - 87
    } else if 65 <= n && n <= 70 {
        n - 55
    } else {
        0
    }
}

/// The char that the short escape `\k` stands for in a JSON string.
pub open spec fn short_escape(k: char) -> char {
    if k == 'b' {
        '\u{8}'
    } else if k == 't' {
        '\t'
    } else if k == 'n' {
        '\n'
    } else if k == 'f' {
        '\u{c}'
    } else if k == 'r' {
        '\r'
    } else {
        k
    }
}

/// How a JSON reader decodes the text between the quotes of a string
/// literal: `\uXXXX` gives the char with that code, `\k` the char that the
/// short escape names, every other char stands for itself.
pub open spec fn json_unescape(e: Seq<char>) -> Seq<char>
    decreases e.len(),
{
    if e.len() == 0 {
        Seq::empty()
    } else if e[0] == '\\' && e.len() >= 6 && e[1] == 'u' {
        seq![
            (hex_value(e[2]) * 4096 + hex_value(e[3]) * 256 + hex_value(e[4]) * 16 + hex_value(
                e[5],
            )) as char,
        ] + json_unescape(e.skip(6))
    } else if e[0] == '\\' && e.len() >= 2 && e[1] != 'u' {
        seq![short_escape(e[1])] + json_unescape(e.skip(2))
    } else {
        seq![e[0]] + json_unescape(e.skip(1))
    }
}

/// The text between the quotes of a well-formed JSON string literal: no
/// bare `"` ends it early, and every `\` starts a complete escape.
pub open spec fn literal_text(e: Seq<char>) -> bool
    decreases e.len(),
{
    if e.len() == 0 {
        true
    } else if e[0] == '"' {
        false
    } else if e[0] == '\\' {
        if e.len() >= 6 && e[1] == 'u' {
            literal_text(e.skip(6))
        } else if e.len() >= 2 && e[1] != 'u' {
            literal_text(e.skip(2))
        } else {
            false
        }
    } else {
        literal_text(e.skip(1))
    }
}

/// `body` holds a JSON string literal right after the text `lead` (a
/// member's key and colon, possibly inside nested objects), and that literal
/// reads back as `value`.
pub open spec fn has_string_value(body: Seq<char>, lead: Seq<char>, value: Seq<char>) -> bool {
    exists|pre: Seq<char>, lit: Seq<char>, post: Seq<char>|
        #![trigger json_unescape(lit), pre + lit + post]
        body == pre + lead + seq!['"'] + lit + seq!['"'] + post && literal_text(lit) && json_unescape(
            lit,
        ) == value
}

/// The text that opens the member `key` of a JSON object: `"key":`.
pub open spec fn member_lead(key: Seq<char>) -> Seq<char> {
    seq!['"'] + key + seq!['"', ':']
}

proof fn lemma_hex_lower_value(d: nat)
    requires
        d < 16,
    ensures
        hex_value(hex_lower(d)) == d,
{
}

/// One written char reads back as itself, whatever follows it.
proof fn lemma_json_char_reads_back(c: char, rest: Seq<char>)
    ensures
        json_unescape(json_char(c) + rest) == seq![c] + json_unescape(rest),
        literal_text(json_char(c) + rest) == literal_text(rest),
{
    let e = json_char(c) + rest;
    if c == '"' || c == '\\' || c == '\u{8}' || c == '\t' || c == '\n' || c == '\u{c}' || c == '\r' {
        assert(e.skip(2) =~= rest);
    } else if (c as u32) < 0x20 {
        let n = c as u32;
        lemma_hex_lower_value((n / 16) as nat);
        lemma_hex_lower_value((n % 16) as nat);
        assert(e.skip(6) =~= rest);
        assert(hex_value(e[2]) == 0);
        assert(hex_value(e[3]) == 0);
        assert(hex_value(e[4]) * 16 + hex_value(e[5]) == n);
        assert(((n as int) as char) == c);
    } else {
        assert(e.skip(1) =~= rest);
    }
}

/// Written text reads back as itself, whatever follows it.
proof fn lemma_json_chars_read_back(s: Seq<char>, rest: Seq<char>)
    ensures
        json_unescape(json_chars(s) + rest) == s + json_unescape(rest),
        literal_text(json_chars(s) + rest) == literal_text(rest),
    decreases s.len(),
{
    if s.len() > 0 {
        let c = s.last();
        let tail = json_char(c) + rest;
        lemma_json_char_reads_back(c, rest);
        lemma_json_chars_read_back(s.drop_last(), tail);
        assert(json_chars(s) + rest =~= json_chars(s.drop_last()) + tail);
        assert(s =~= s.drop_last() + seq![c]);
    } else {
        assert(json_chars(s) + rest =~= rest);
    }
}

/// The text that a string literal written by `json_string` holds reads back
/// as the original text.
pub proof fn lemma_json_string_reads_back(s: Seq<char>)
    ensures
        literal_text(json_chars(s)),
        json_unescape(json_chars(s)) == s,
        json_string(s) == seq!['"'] + json_chars(s) + seq!['"'],
{
    lemma_json_chars_read_back(s, Seq::empty());
    assert(json_chars(s) + Seq::<char>::empty() =~= json_chars(s));
}

/// What opens the description in each provider's request: the member
/// `body` on GitHub, `description` on Bitbucket and GitLab.
pub open spec fn description_lead(provider: PrProvider) -> Seq<char> {
    match provider {
        PrProvider::GitHub => member_lead("body"@),
        _ => member_lead("description"@),
    }
}

/// What opens the source branch: `head` on GitHub, `source.branch.name` on
/// Bitbucket, `source_branch` on GitLab.
pub open spec fn source_lead(provider: PrProvider) -> Seq<char> {
    match provider {
        PrProvider::GitHub => member_lead("head"@),
        PrProvider::Bitbucket => member_lead("source"@) + seq!['{'] + member_lead("branch"@) + seq!['{']
            + member_lead("name"@),
        PrProvider::GitLab => member_lead("source_branch"@),
    }
}

/// What opens the target branch: `base` on GitHub,
/// `destination.branch.name` on Bitbucket, `target_branch` on GitLab.
pub open spec fn target_lead(provider: PrProvider) -> Seq<char> {
    match provider {
        PrProvider::GitHub => member_lead("base"@),
        PrProvider::Bitbucket => member_lead("destination"@) + seq!['{'] + member_lead("branch"@)
            + seq!['{'] + member_lead("name"@),
        PrProvider::GitLab => member_lead("target_branch"@),
    }
}

/// A literal written by `json_string` after `lead` is found there and reads
/// back as the text written.
proof fn lemma_value_after(pre: Seq<char>, lead: Seq<char>, s: Seq<char>, post: Seq<char>)
    ensures
        has_string_value(pre + lead + json_string(s) + post, lead, s),
{
    lemma_json_string_reads_back(s);
    let lit = json_chars(s);
    assert(pre + lead + json_string(s) + post =~= pre + lead + seq!['"'] + lit + seq!['"'] + post);
    // Names the witnesses of the existential.
    assert(pre + lit + post == pre + lit + post);
}

/// Four members in a row, each opened by its text `l` (punctuation `c` then
/// the lead `k`) and holding a literal written by `json_string`: each is
/// found after its lead and reads back as the text written.
#[verifier::spinoff_prover]
#[verifier::rlimit(40)]
proof fn lemma_four_values(
    l0: Seq<char>, c0: Seq<char>, k0: Seq<char>, s0: Seq<char>,
    l1: Seq<char>, c1: Seq<char>, k1: Seq<char>, s1: Seq<char>,
    l2: Seq<char>, c2: Seq<char>, k2: Seq<char>, s2: Seq<char>,
    l3: Seq<char>, c3: Seq<char>, k3: Seq<char>, s3: Seq<char>,
    close: Seq<char>,
)
    requires
        l0 == c0 + k0,
        l1 == c1 + k1,
        l2 == c2 + k2,
        l3 == c3 + k3,
    ensures
        has_string_value(l0 + json_string(s0) + l1 + json_string(s1) + l2 + json_string(s2) + l3 + json_string(s3) + close, k0, s0),
        has_string_value(l0 + json_string(s0) + l1 + json_string(s1) + l2 + json_string(s2) + l3 + json_string(s3) + close, k1, s1),
        has_string_value(l0 + json_string(s0) + l1 + json_string(s1) + l2 + json_string(s2) + l3 + json_string(s3) + close, k2, s2),
        has_string_value(l0 + json_string(s0) + l1 + json_string(s1) + l2 + json_string(s2) + l3 + json_string(s3) + close, k3, s3),
{
    let j0 = json_string(s0);
    let j1 = json_string(s1);
    let j2 = json_string(s2);
    let j3 = json_string(s3);
    let body = l0 + j0 + l1 + j1 + l2 + j2 + l3 + j3 + close;
    assert(has_string_value(body, k0, s0)) by {
        let q0 = l1 + j1 + l2 + j2 + l3 + j3 + close;
        assert(body =~= c0 + k0 + j0 + q0);
        lemma_value_after(c0, k0, s0, q0);
    }
    assert(has_string_value(body, k1, s1)) by {
        let p1 = l0 + j0 + c1;
        let q1 = l2 + j2 + l3 + j3 + close;
        assert(body =~= p1 + k1 + j1 + q1);
        lemma_value_after(p1, k1, s1, q1);
    }
    assert(has_string_value(body, k2, s2)) by {
        let p2 = l0 + j0 + l1 + j1 + c2;
        let q2 = l3 + j3 + close;
        assert(body =~= p2 + k2 + j2 + q2);
        lemma_value_after(p2, k2, s2, q2);
    }
    assert(has_string_value(body, k3, s3)) by {
        let p3 = l0 + j0 + l1 + j1 + l2 + j2 + c3;
        assert(body =~= p3 + k3 + j3 + close);
        lemma_value_after(p3, k3, s3, close);
    }
}

proof fn lemma_github_body(title: Seq<char>, description: Seq<char>, source: Seq<char>, target: Seq<char>)
    ensures
        has_string_value(request_body_of(PrProvider::GitHub, title, description, source, target), member_lead("title"@), title),
        has_string_value(request_body_of(PrProvider::GitHub, title, description, source, target), description_lead(PrProvider::GitHub), description),
        has_string_value(request_body_of(PrProvider::GitHub, title, description, source, target), source_lead(PrProvider::GitHub), source),
        has_string_value(request_body_of(PrProvider::GitHub, title, description, source, target), target_lead(PrProvider::GitHub), target),
{
    let l0 = "{\"base\":"@;
    assert(l0 =~= seq!['{'] + target_lead(PrProvider::GitHub)) by {
        reveal_strlit("{\"base\":");
        reveal_strlit("base");
    }
    let l1 = ",\"body\":"@;
    assert(l1 =~= seq![','] + description_lead(PrProvider::GitHub)) by {
        reveal_strlit(",\"body\":");
        reveal_strlit("body");
    }
    let l2 = ",\"head\":"@;
    assert(l2 =~= seq![','] + source_lead(PrProvider::GitHub)) by {
        reveal_strlit(",\"head\":");
        reveal_strlit("head");
    }
    let l3 = ",\"title\":"@;
    assert(l3 =~= seq![','] + member_lead("title"@)) by {
        reveal_strlit(",\"title\":");
        reveal_strlit("title");
    }
    lemma_four_values(
        l0, seq!['{'], target_lead(PrProvider::GitHub), target,
        l1, seq![','], description_lead(PrProvider::GitHub), description,
        l2, seq![','], source_lead(PrProvider::GitHub), source,
        l3, seq![','], member_lead("title"@), title,
        "}"@,
    );
}

proof fn lemma_bitbucket_body(title: Seq<char>, description: Seq<char>, source: Seq<char>, target: Seq<char>)
    ensures
        has_string_value(request_body_of(PrProvider::Bitbucket, title, description, source, target), member_lead("title"@), title),
        has_string_value(request_body_of(PrProvider::Bitbucket, title, description, source, target), description_lead(PrProvider::Bitbucket), description),
        has_string_value(request_body_of(PrProvider::Bitbucket, title, description, source, target), source_lead(PrProvider::Bitbucket), source),
        has_string_value(request_body_of(PrProvider::Bitbucket, title, description, source, target), target_lead(PrProvider::Bitbucket), target),
{
    let l0 = "{\"description\":"@;
    assert(l0 =~= seq!['{'] + description_lead(PrProvider::Bitbucket)) by {
        reveal_strlit("{\"description\":");
        reveal_strlit("description");
    }
    let l1 = ",\"destination\":{\"branch\":{\"name\":"@;
    assert(l1 =~= seq![','] + target_lead(PrProvider::Bitbucket)) by {
        reveal_strlit(",\"destination\":{\"branch\":{\"name\":");
        reveal_strlit("destination");
        reveal_strlit("branch");
        reveal_strlit("name");
    }
    let l2 = "}},\"source\":{\"branch\":{\"name\":"@;
    assert(l2 =~= seq!['}', '}', ','] + source_lead(PrProvider::Bitbucket)) by {
        reveal_strlit("}},\"source\":{\"branch\":{\"name\":");
        reveal_strlit("source");
        reveal_strlit("branch");
        reveal_strlit("name");
    }
    let l3 = "}},\"title\":"@;
    assert(l3 =~= seq!['}', '}', ','] + member_lead("title"@)) by {
        reveal_strlit("}},\"title\":");
        reveal_strlit("title");
    }
    lemma_four_values(
        l0, seq!['{'], description_lead(PrProvider::Bitbucket), description,
        l1, seq![','], target_lead(PrProvider::Bitbucket), target,
        l2, seq!['}', '}', ','], source_lead(PrProvider::Bitbucket), source,
        l3, seq!['}', '}', ','], member_lead("title"@), title,
        "}"@,
    );
}

proof fn lemma_gitlab_body(title: Seq<char>, description: Seq<char>, source: Seq<char>, target: Seq<char>)
    ensures
        has_string_value(request_body_of(PrProvider::GitLab, title, description, source, target), member_lead("title"@), title),
        has_string_value(request_body_of(PrProvider::GitLab, title, description, source, target), description_lead(PrProvider::GitLab), description),
        has_string_value(request_body_of(PrProvider::GitLab, title, description, source, target), source_lead(PrProvider::GitLab), source),
        has_string_value(request_body_of(PrProvider::GitLab, title, description, source, target), target_lead(PrProvider::GitLab), target),
{
    let l0 = "{\"description\":"@;
    assert(l0 =~= seq!['{'] + description_lead(PrProvider::GitLab)) by {
        reveal_strlit("{\"description\":");
        reveal_strlit("description");
    }
    let l1 = ",\"source_branch\":"@;
    assert(l1 =~= seq![','] + source_lead(PrProvider::GitLab)) by {
        reveal_strlit(",\"source_branch\":");
        reveal_strlit("source_branch");
    }
    let l2 = ",\"target_branch\":"@;
    assert(l2 =~= seq![','] + target_lead(PrProvider::GitLab)) by {
        reveal_strlit(",\"target_branch\":");
        reveal_strlit("target_branch");
    }
    let l3 = ",\"title\":"@;
    assert(l3 =~= seq![','] + member_lead("title"@)) by {
        reveal_strlit(",\"title\":");
        reveal_strlit("title");
    }
    lemma_four_values(
        l0, seq!['{'], description_lead(PrProvider::GitLab), description,
        l1, seq![','], source_lead(PrProvider::GitLab), source,
        l2, seq![','], target_lead(PrProvider::GitLab), target,
        l3, seq![','], member_lead("title"@), title,
        "}"@,
    );
}

/// Whatever the provider, the create-request body carries each argument in
/// its own member: read back from its JSON string literal, the title under
/// `title` is the title, the description under the provider's description
/// member is the description, and the source and target branches under the
/// provider's branch members are the source and the target.
pub proof fn lemma_request_body_carries_text(
    provider: PrProvider,
    title: Seq<char>,
    description: Seq<char>,
    source: Seq<char>,
    target: Seq<char>,
)
    ensures
        has_string_value(
            request_body_of(provider, title, description, source, target),
            member_lead("title"@),
            title,
        ),
        has_string_value(
            request_body_of(provider, title, description, source, target),
            description_lead(provider),
            description,
        ),
        has_string_value(
            request_body_of(provider, title, description, source, target),
            source_lead(provider),
            source,
        ),
        has_string_value(
            request_body_of(provider, title, description, source, target),
            target_lead(provider),
            target,
        ),
{
    match provider {
        PrProvider::GitHub => lemma_github_body(title, description, source, target),
        PrProvider::Bitbucket => lemma_bitbucket_body(title, description, source, target),
        PrProvider::GitLab => lemma_gitlab_body(title, description, source, target),
    }
}

pub fn pr_request_json(
    provider: PrProvider,
    title: &str,
    description: &str,
    source: &str,
    target: &str,
) -> (r: String)
    ensures
        r@ == request_body_of(provider, title@, description@, source@, target@),
{
    let t = json_quote(title);
    let d = json_quote(description);
    let s = json_quote(source);
    let g = json_quote(target);
    match provider {
        PrProvider::GitHub => {
            let mut r = string_lit("{\"base\":");
            r.append(g.as_str());
            r.append(",\"body\":");
            r.append(d.as_str());
            r.append(",\"head\":");
            r.append(s.as_str());
            r.append(",\"title\":");
            r.append(t.as_str());
            r.append("}");
            r
        },
        PrProvider::Bitbucket => {
            let mut r = string_lit("{\"description\":");
            r.append(d.as_str());
            r.append(",\"destination\":{\"branch\":{\"name\":");
            r.append(g.as_str());
            r.append("}},\"source\":{\"branch\":{\"name\":");
            r.append(s.as_str());
            r.append("}},\"title\":");
            r.append(t.as_str());
            r.append("}");
            r
        },
        PrProvider::GitLab => {
            let mut r = string_lit("{\"description\":");
            r.append(d.as_str());
            r.append(",\"source_branch\":");
            r.append(s.as_str());
            r.append(",\"target_branch\":");
            r.append(g.as_str());
            r.append(",\"title\":");
            r.append(t.as_str());
            r.append("}");
            r
        },
    }
}

// ---------------------------------------------------------------------------
// Provider replies
// ---------------------------------------------------------------------------

pub open spec fn url_pointer(provider: PrProvider) -> Seq<char> {
    match provider {
        PrProvider::GitHub => "/html_url"@,
        PrProvider::Bitbucket => "/links/html/href"@,
        PrProvider::GitLab => "/web_url"@,
    }
}

pub open spec fn number_pointer(provider: PrProvider) -> Seq<char> {
    match provider {
        PrProvider::GitHub => "/number"@,
        PrProvider::Bitbucket => "/id"@,
        PrProvider::GitLab => "/iid"@,
    }
}

/// `#7` for pull requests, `!3` for GitLab merge requests.
pub open spec fn reference_of(provider: PrProvider, number: u64) -> Seq<char> {
    match provider {
        PrProvider::GitLab => seq!['!'] + dec(number as nat),
        _ => seq!['#'] + dec(number as nat),
    }
}

pub open spec fn unreadable(e: AppError) -> bool {
    is_error(
        e,
        ErrorCode::NETWORK_ERROR,
        "Provider returned an unreadable response"@,
        RecoveryAction::Refresh,
        false,
    )
}

/// The created request's URL and reference, from the URL and number the
/// provider reply carried (`None` = absent): both must be present and the
/// URL must be `https://`.
pub open spec fn response_fields(
    provider: PrProvider,
    url: Option<Seq<char>>,
    number: Option<u64>,
    r: Result<(String, String), AppError>,
) -> bool {
    match (url, number) {
        (Some(u), Some(n)) if u.len() > 0 && "https://"@.is_prefix_of(u) => r matches Ok(
            (a, b),
        ) && a@ == u && b@ == reference_of(provider, n),
        _ => r matches Err(e) && unreadable(e),
    }
}

fn unreadable_response() -> (e: AppError)
    ensures
        unreadable(e),
{
    AppError::new(
        ErrorCode::NETWORK_ERROR,
        string_lit("Provider returned an unreadable response"),
        RecoveryAction::Refresh,
        false,
    )
}

pub fn pr_response_fields(provider: PrProvider, url: Option<String>, number: Option<u64>) -> (r:
    Result<(String, String), AppError>)
    ensures
        response_fields(
            provider,
            match url {
                Some(u) => Some(u@),
                None => None,
            },
            number,
            r,
        ),
{
    let url = match url {
        Some(u) => u,
        None => return Err(unreadable_response()),
    };
    let number = match number {
        Some(n) => n,
        None => return Err(unreadable_response()),
    };
    let chars = chars_of(url.as_str());
    if chars.len() == 0 || !has_prefix(&chars, &chars_of("https://")) {
        return Err(unreadable_response());
    }
    let mut reference: Vec<char> = Vec::new();
    match provider {
        PrProvider::GitLab => reference.push('!'),
        _ => reference.push('#'),
    }
    let digits = dec_chars(number);
    let mut i: usize = 0;
    while i < digits.len()
        invariant
            i <= digits.len(),
            reference@.len() == i + 1,
            reference@[0] == (if provider == PrProvider::GitLab {
                '!'
            } else {
                '#'
            }),
            reference@.skip(1) == digits@.take(i as int),
        decreases digits.len() - i,
    {
        reference.push(digits[i]);
        assert(reference@.skip(1) =~= digits@.take(i + 1));
        i += 1;
    }
    assert(digits@.take(i as int) =~= digits@);
    assert(reference@ =~= reference_of(provider, number));
    Ok((url, string_of(reference.as_slice())))
}

pub open spec fn max_response_bytes() -> nat {
    1024 * 1024
}

/// Pull the request URL and reference out of a provider reply
/// (size-bounded).
pub fn pr_parse_response(provider: PrProvider, body: &[u8]) -> (r: Result<(String, String), AppError>)
    ensures
        if body@.len() > max_response_bytes() {
            r matches Err(e) && is_error(
                e,
                ErrorCode::OUTPUT_LIMIT,
                "Provider response exceeded the safety bound"@,
                RecoveryAction::RetryRead,
                false,
            )
        } else {
            response_fields(
                provider,
                json_str_at(body@, url_pointer(provider)),
                json_u64_at(body@, number_pointer(provider)),
                r,
            )
        },
{
    if body.len() > 1024 * 1024 {
        return Err(
            AppError::new(
                ErrorCode::OUTPUT_LIMIT,
                string_lit("Provider response exceeded the safety bound"),
                RecoveryAction::RetryRead,
                false,
            ),
        );
    }
    let (url_ptr, number_ptr) = match provider {
        PrProvider::GitHub => ("/html_url", "/number"),
        PrProvider::Bitbucket => ("/links/html/href", "/id"),
        PrProvider::GitLab => ("/web_url", "/iid"),
    };
    let url = json_field_str(body, url_ptr);
    let number = json_field_u64(body, number_ptr);
    pr_response_fields(provider, url, number)
}

// ---------------------------------------------------------------------------
// HTTP failures
// ---------------------------------------------------------------------------

/// A provider message is shown when non-empty, at most 300 bytes and free
/// of control chars.
pub open spec fn hint_of(message: Option<Seq<char>>) -> Seq<char> {
    match message {
        Some(m) if m.len() > 0 && utf8_len(m) <= 300 && !has_control(m) => " Provider says: "@ + m,
        _ => Seq::empty(),
    }
}

/// The provider's message in a failure body: the `message` field when the
/// body has one, else the `error` field; only string values count.
pub open spec fn failure_message(body: Seq<u8>) -> Option<Seq<char>> {
    if json_has_at(body, "/message"@) {
        json_str_at(body, "/message"@)
    } else {
        json_str_at(body, "/error"@)
    }
}

pub open spec fn kind_label(provider: PrProvider) -> Seq<char> {
    match provider {
        PrProvider::GitLab => "merge request"@,
        _ => "pull request"@,
    }
}

/// The error for a non-success HTTP status, given the provider message.
pub open spec fn http_error_is(
    status: u16,
    provider: PrProvider,
    message: Option<Seq<char>>,
    e: AppError,
) -> bool {
    if status == 401 || status == 403 {
        is_error(
            e,
            ErrorCode::AUTH_REQUIRED,
            "The provider rejected the saved credential. Update it, then retry."@,
            RecoveryAction::Authenticate,
            false,
        )
    } else if status == 404 {
        is_error(
            e,
            ErrorCode::INVALID_ARGUMENT,
            "Repository or branch not found on the provider. Push the branches first."@,
            RecoveryAction::InspectState,
            false,
        )
    } else if status == 422 || status == 400 {
        is_error(
            e,
            ErrorCode::INVALID_ARGUMENT,
            "The provider refused the "@ + kind_label(provider) + " (maybe it already exists)."@
                + hint_of(message),
            RecoveryAction::InspectState,
            false,
        )
    } else {
        is_error(
            e,
            ErrorCode::NETWORK_ERROR,
            "Provider request failed (HTTP "@ + dec(status as nat) + ")"@,
            RecoveryAction::Refresh,
            false,
        )
    }
}

fn provider_hint(message: Option<String>) -> (r: String)
    ensures
        r@ == hint_of(
            match message {
                Some(m) => Some(m@),
                None => None,
            },
        ),
{
    match message {
        Some(m) => {
            let chars = chars_of(m.as_str());
            if chars.len() > 0 && !utf8_len_exceeds(&chars, 300) && !any_control(&chars) {
                concat2(" Provider says: ", m.as_str())
            } else {
                let r = string_lit("");
                assert(r@ =~= Seq::<char>::empty()) by {
                    reveal_strlit("");
                }
                r
            }
        },
        None => {
            let r = string_lit("");
            assert(r@ =~= Seq::<char>::empty()) by {
                reveal_strlit("");
            }
            r
        },
    }
}

pub fn pr_http_error_with(status: u16, provider: PrProvider, message: Option<String>) -> (e:
    AppError)
    ensures
        http_error_is(
            status,
            provider,
            match message {
                Some(m) => Some(m@),
                None => None,
            },
            e,
        ),
{
    if status == 401 || status == 403 {
        return AppError::new(
            ErrorCode::AUTH_REQUIRED,
            string_lit("The provider rejected the saved credential. Update it, then retry."),
            RecoveryAction::Authenticate,
            false,
        );
    }
    if status == 404 {
        return AppError::new(
            ErrorCode::INVALID_ARGUMENT,
            string_lit("Repository or branch not found on the provider. Push the branches first."),
            RecoveryAction::InspectState,
            false,
        );
    }
    if status == 422 || status == 400 {
        let mut text = string_lit("The provider refused the ");
        match provider {
            PrProvider::GitLab => text.append("merge request"),
            _ => text.append("pull request"),
        }
        text.append(" (maybe it already exists).");
        let hint = provider_hint(message);
        text.append(hint.as_str());
        return AppError::new(ErrorCode::INVALID_ARGUMENT, text, RecoveryAction::InspectState, false);
    }
    let mut text = string_lit("Provider request failed (HTTP ");
    let digits = string_of(dec_chars(status as u64).as_slice());
    text.append(digits.as_str());
    text.append(")");
    AppError::new(ErrorCode::NETWORK_ERROR, text, RecoveryAction::Refresh, false)
}

/// The error for a non-success reply: status, provider and failure body.
pub fn pr_http_error(status: u16, provider: PrProvider, body: &[u8]) -> (e: AppError)
    ensures
        http_error_is(status, provider, failure_message(body@), e),
{
    let message = if json_field_present(body, "/message") {
        json_field_str(body, "/message")
    } else {
        json_field_str(body, "/error")
    };
    pr_http_error_with(status, provider, message)
}

} // verus!
