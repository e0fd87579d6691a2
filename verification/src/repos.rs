//! Repository lifecycle: open, init, snapshot, close, trust, the recent
//! list and the saved workspace tabs.
//!
//! Trust defaults to read-only; init is explicit intent and starts trusted.
//! Saved workspace keys are `worktree-v1:<hex>` strings the backend issued;
//! anything else fails closed so a tampered settings file cannot point Git
//! at odd paths.

use vstd::prelude::*;
use crate::domain::{HeadState, OpenWorkspaceEntry, RecentEntry, RepoState, SkippedWorkspace, TrustState};
use crate::error::{bad_request_str, is_error, AppError, ErrorCode, RecoveryAction, RequestId};
use crate::num::{hex_digit_lower, hex_fixed};
use crate::text::{all_ascii, 
    chars_of, concat2, is_ascii_hexdigit, str_eq, string_lit, string_of, strip_prefix, strip_prefix_vec,
    trim, trim_str,
};

verus! {

#[derive(Debug)]
pub struct RepoOpenRequest {
    pub request_id: RequestId,
    pub selected_path: String,
}

#[derive(Debug)]
pub struct RepoInitRequest {
    pub request_id: RequestId,
    pub selected_path: String,
    pub initial_branch: String,
}

#[derive(Debug)]
pub struct RepoIdRequest {
    pub request_id: RequestId,
    pub repo_id: String,
}

#[derive(Debug)]
pub struct RepoSnapshotRequest {
    pub request_id: RequestId,
    pub repo_id: String,
    pub refresh: bool,
}

#[derive(Debug)]
pub struct RepoTrustRequest {
    pub request_id: RequestId,
    pub repo_id: String,
    pub trusted: bool,
}

#[derive(Debug)]
pub struct RecentListRequest {
    pub request_id: RequestId,
}

#[derive(Debug)]
pub struct RecentRemoveRequest {
    pub request_id: RequestId,
    pub entry_id: String,
}

#[derive(Debug, Clone, Copy, PartialEq, Eq, Structural)]
pub struct ClosedResponse {
    pub closed: bool,
}

#[derive(Debug, Clone, Copy, PartialEq, Eq, Structural)]
pub struct RemovedResponse {
    pub removed: bool,
}

#[derive(Debug)]
pub struct WorkspacesSaveRequest {
    pub request_id: RequestId,
    pub entries: Vec<OpenWorkspaceEntry>,
    pub active_key: Option<String>,
}

#[derive(Debug)]
pub struct WorkspacesRestoreRequest {
    pub request_id: RequestId,
}

// ---------------------------------------------------------------------------
// HEAD and snapshot state
// ---------------------------------------------------------------------------

pub fn head_read_failed() -> (e: AppError)
    ensures
        is_error(e, ErrorCode::GIT_ERROR, "Failed to read HEAD"@, RecoveryAction::Refresh, true),
{
    AppError::new(
        ErrorCode::GIT_ERROR,
        string_lit("Failed to read HEAD"),
        RecoveryAction::Refresh,
        true,
    )
}

/// The branch name of a symbolic HEAD (`refs/heads/` stripped when there).
pub open spec fn head_name(full: Seq<char>) -> Seq<char> {
    match strip_prefix(full, "refs/heads/"@) {
        Some(n) => n,
        None => full,
    }
}

/// Where HEAD points, from `git symbolic-ref -q HEAD` and `git rev-parse
/// HEAD` (trimmed outputs): a branch with its commit, an unborn branch, a
/// detached commit, or unreadable.
pub fn head_state(symbolic_ok: bool, symbolic_out: &str, oid_ok: bool, oid_out: &str) -> (r: Result<
    HeadState,
    AppError,
>)
    ensures
        symbolic_ok && oid_ok ==> (r matches Ok(HeadState::Branch { ref_id, name, oid }) && ref_id@
            == trim(symbolic_out@) && name@ == head_name(trim(symbolic_out@)) && oid@ == trim(
            oid_out@,
        )),
        symbolic_ok && !oid_ok ==> (r matches Ok(HeadState::Unborn { name }) && name@ == head_name(
            trim(symbolic_out@),
        )),
        !symbolic_ok && oid_ok ==> (r matches Ok(HeadState::Detached { oid }) && oid@ == trim(
            oid_out@,
        )),
        !symbolic_ok && !oid_ok ==> (r matches Err(e) && is_error(
            e,
            ErrorCode::GIT_ERROR,
            "HEAD is unreadable"@,
            RecoveryAction::InspectState,
            false,
        )),
{
    if symbolic_ok {
        let full = trim_str(symbolic_out);
        let name = match strip_prefix_vec(&full, &chars_of("refs/heads/")) {
            Some(n) => n,
            None => crate::text::slice_of(&full, 0, full.len()),
        };
        assert(full@.subrange(0, full@.len() as int) =~= full@);
        if oid_ok {
            let oid = trim_str(oid_out);
            return Ok(
                HeadState::Branch {
                    ref_id: string_of(full.as_slice()),
                    name: string_of(name.as_slice()),
                    oid: string_of(oid.as_slice()),
                },
            );
        }
        return Ok(HeadState::Unborn { name: string_of(name.as_slice()) });
    }
    if oid_ok {
        let oid = trim_str(oid_out);
        return Ok(HeadState::Detached { oid: string_of(oid.as_slice()) });
    }
    Err(
        AppError::new(
            ErrorCode::GIT_ERROR,
            string_lit("HEAD is unreadable"),
            RecoveryAction::InspectState,
            false,
        ),
    )
}

/// State overrides heal when their marker is gone: no MERGE_HEAD ends
/// `Merging`, zero conflicts end `StashConflict`.
pub open spec fn healed(state: RepoState, merge_head_live: bool, conflict_count: Option<u64>) -> RepoState {
    let s1 = if !merge_head_live && state == RepoState::Merging {
        RepoState::Normal
    } else {
        state
    };
    if conflict_count == Some(0u64) && s1 == RepoState::StashConflict {
        RepoState::Normal
    } else {
        s1
    }
}

pub fn heal_repo_state(state: RepoState, merge_head_live: bool, conflict_count: Option<u64>) -> (r:
    RepoState)
    ensures
        r == healed(state, merge_head_live, conflict_count),
{
    let mut s = state;
    if !merge_head_live && s == RepoState::Merging {
        s = RepoState::Normal;
    }
    if conflict_count == Some(0u64) && s == RepoState::StashConflict {
        s = RepoState::Normal;
    }
    s
}

/// `app` for merges the app started, `external` for any other live merge.
pub fn merge_origin(record_present: bool, merge_head_live: bool) -> (r: Option<String>)
    ensures
        record_present ==> (r matches Some(s) && s@ == "app"@),
        !record_present && merge_head_live ==> (r matches Some(s) && s@ == "external"@),
        !record_present && !merge_head_live ==> r is None,
{
    if record_present {
        Some(string_lit("app"))
    } else if merge_head_live {
        Some(string_lit("external"))
    } else {
        None
    }
}

/// Trust toggles bump the version (saturating).
pub fn trust_update(trusted: bool, version: u64) -> (r: (TrustState, u64))
    ensures
        r.0 == (if trusted {
            TrustState::Trusted
        } else {
            TrustState::ReadOnly
        }),
        r.1 == (if version == u64::MAX {
            version
        } else {
            (version + 1) as u64
        }),
{
    (
        if trusted {
            TrustState::Trusted
        } else {
            TrustState::ReadOnly
        },
        version.saturating_add(1),
    )
}

/// Closing needs an open session with no job still running.
pub fn check_close(open: bool, busy: bool) -> (r: Result<(), AppError>)
    ensures
        r is Ok <==> open && !busy,
        !open ==> (r matches Err(e) && is_error(
            e,
            ErrorCode::REPO_UNAVAILABLE,
            "Repository session is no longer open"@,
            RecoveryAction::ChooseRepository,
            false,
        )),
        open && busy ==> (r matches Err(e) && is_error(
            e,
            ErrorCode::REPO_BUSY,
            "An operation is still running; wait for it or cancel it before closing"@,
            RecoveryAction::InspectState,
            false,
        )),
{
    if !open {
        return Err(crate::error::session_missing());
    }
    if busy {
        return Err(
            AppError::new(
                ErrorCode::REPO_BUSY,
                string_lit("An operation is still running; wait for it or cancel it before closing"),
                RecoveryAction::InspectState,
                false,
            ),
        );
    }
    Ok(())
}

pub fn bare_repository() -> (e: AppError)
    ensures
        is_error(
            e,
            ErrorCode::BARE_REPOSITORY,
            "Selected folder is a bare repository"@,
            RecoveryAction::ChooseRepository,
            false,
        ),
{
    AppError::new(
        ErrorCode::BARE_REPOSITORY,
        string_lit("Selected folder is a bare repository"),
        RecoveryAction::ChooseRepository,
        false,
    )
}

// ---------------------------------------------------------------------------
// Init
// ---------------------------------------------------------------------------

/// Init never overwrites an existing repository.
pub fn check_init_target(already_repository: bool) -> (r: Result<(), AppError>)
    ensures
        r is Ok <==> !already_repository,
        r matches Err(e) ==> is_error(
            e,
            ErrorCode::INVALID_ARGUMENT,
            "Selected folder is already a Git repository; init refuses to overwrite it"@,
            RecoveryAction::InspectState,
            false,
        ),
{
    if already_repository {
        return Err(
            bad_request_str(
                "Selected folder is already a Git repository; init refuses to overwrite it",
            ),
        );
    }
    Ok(())
}

pub fn init_dir_failed() -> (e: AppError)
    ensures
        is_error(
            e,
            ErrorCode::PATH_INVALID,
            "Destination folder cannot be created"@,
            RecoveryAction::ChooseRepository,
            false,
        ),
{
    AppError::new(
        ErrorCode::PATH_INVALID,
        string_lit("Destination folder cannot be created"),
        RecoveryAction::ChooseRepository,
        false,
    )
}

/// The folder name `git init` creates inside its parent.
pub fn init_folder_name(file_name: Option<&str>) -> (r: Result<String, AppError>)
    ensures
        match file_name {
            Some(n) => if n@.len() > 0 {
                r matches Ok(s) && s@ == n@
            } else {
                r matches Err(e) && is_error(
                    e,
                    ErrorCode::INVALID_ARGUMENT,
                    "Destination folder name is invalid"@,
                    RecoveryAction::InspectState,
                    false,
                )
            },
            None => r matches Err(e) && is_error(
                e,
                ErrorCode::INVALID_ARGUMENT,
                "Destination folder name is invalid"@,
                RecoveryAction::InspectState,
                false,
            ),
        },
{
    match file_name {
        Some(n) => {
            if n.is_empty() {
                return Err(bad_request_str("Destination folder name is invalid"));
            }
            Ok(string_lit(n))
        },
        None => Err(bad_request_str("Destination folder name is invalid")),
    }
}

pub fn init_failed() -> (e: AppError)
    ensures
        is_error(
            e,
            ErrorCode::GIT_ERROR,
            "Git init failed"@,
            RecoveryAction::ChooseRepository,
            false,
        ),
{
    AppError::new(
        ErrorCode::GIT_ERROR,
        string_lit("Git init failed"),
        RecoveryAction::ChooseRepository,
        false,
    )
}

// ---------------------------------------------------------------------------
// Workspace keys
// ---------------------------------------------------------------------------

pub open spec fn hex_value(c: char) -> nat {
    if '0' <= c && c <= '9' {
        ((c as u32) - ('0' as u32)) as nat
    } else if 'a' <= c && c <= 'f' {
        ((c as u32) - ('a' as u32) + 10) as nat
    } else {
        ((c as u32) - ('A' as u32) + 10) as nat
    }
}

/// `u8::from_str_radix` of a two-char string: two hex digits, or `+` and
/// one hex digit.
pub open spec fn pair_value(a: char, b: char) -> Option<u8> {
    if a == '+' && is_ascii_hexdigit(b) {
        Some(hex_value(b) as u8)
    } else if is_ascii_hexdigit(a) && is_ascii_hexdigit(b) {
        Some((hex_value(a) * 16 + hex_value(b)) as u8)
    } else {
        None
    }
}

/// The bytes of the first `n` pairs of `h`, or `None` at a bad pair.
pub open spec fn pairs_upto(h: Seq<char>, n: nat) -> Option<Seq<u8>>
    decreases n,
{
    if n == 0 {
        Some(Seq::empty())
    } else {
        match pairs_upto(h, (n - 1) as nat) {
            None => None,
            Some(p) => match pair_value(h[2 * (n - 1)], h[2 * (n - 1) + 1]) {
                None => None,
                Some(b) => Some(p.push(b)),
            },
        }
    }
}

/// The worktree root a `worktree-v1:<hex>` key names: 1..=4096 ASCII hex
/// chars in pairs.
pub open spec fn decoded_key(key: Seq<char>) -> Option<Seq<u8>> {
    match strip_prefix(key, "worktree-v1:"@) {
        None => None,
        Some(h) => if h.len() == 0 || h.len() > 4096 || h.len() % 2 != 0 || !all_ascii(h) {
            None
        } else {
            pairs_upto(h, (h.len() / 2) as nat)
        },
    }
}

fn hex_val(c: char) -> (r: u8)
    requires
        is_ascii_hexdigit(c),
    ensures
        r as nat == hex_value(c),
        r < 16,
{
    let u = c as u32;
    if u >= 48 && u <= 57 {
        (u - 48) as u8
    } else if u >= 97 && u <= 102 {
        (u - 97 + 10) as u8
    } else {
        (u - 65 + 10) as u8
    }
}

pub fn decode_workspace_key(key: &str) -> (r: Result<Vec<u8>, AppError>)
    ensures
        match decoded_key(key@) {
            Some(b) => r matches Ok(v) && v@ == b,
            None => r matches Err(e) && is_error(
                e,
                ErrorCode::INVALID_ARGUMENT,
                "Unknown saved workspace"@,
                RecoveryAction::InspectState,
                false,
            ),
        },
{
    let v = chars_of(key);
    let h = match strip_prefix_vec(&v, &chars_of("worktree-v1:")) {
        Some(h) => h,
        None => {
            return Err(bad_request_str("Unknown saved workspace"));
        },
    };
    let mut k: usize = 0;
    while k < h.len()
        invariant
            k <= h@.len(),
            strip_prefix(key@, "worktree-v1:"@) == Some(h@),
            forall|i: int| 0 <= i < k ==> (#[trigger] h@[i] as u32) < 128,
        decreases h.len() - k,
    {
        if (h[k] as u32) >= 128 {
            return Err(bad_request_str("Unknown saved workspace"));
        }
        k += 1;
    }
    if h.len() == 0 || h.len() > 4096 || h.len() % 2 != 0 {
        return Err(bad_request_str("Unknown saved workspace"));
    }
    let n = h.len() / 2;
    let mut out: Vec<u8> = Vec::new();
    let mut i: usize = 0;
    while i < n
        invariant
            n == h@.len() / 2,
            h@.len() % 2 == 0,
            i <= n,
            strip_prefix(key@, "worktree-v1:"@) == Some(h@),
            0 < h@.len() <= 4096,
            all_ascii(h@),
            pairs_upto(h@, i as nat) == Some(out@),
        decreases n - i,
    {
        let a = h[2 * i];
        let b = h[2 * i + 1];
        if a == '+' && crate::text::char_is_hexdigit(b) {
            out.push(hex_val(b));
        } else if crate::text::char_is_hexdigit(a) && crate::text::char_is_hexdigit(b) {
            let x = hex_val(a);
            let y = hex_val(b);
            out.push(x * 16 + y);
        } else {
            proof {
                assert(pairs_upto(h@, (i + 1) as nat) is None);
                lemma_pairs_none(h@, (i + 1) as nat, n as nat);
            }
            return Err(bad_request_str("Unknown saved workspace"));
        }
        i += 1;
    }
    Ok(out)
}

proof fn lemma_pairs_none(h: Seq<char>, i: nat, n: nat)
    requires
        pairs_upto(h, i) is None,
        i <= n,
    ensures
        pairs_upto(h, n) is None,
    decreases n,
{
    if n > i {
        lemma_pairs_none(h, i, (n - 1) as nat);
    }
}

/// `worktree-v1:` and two lowercase hex digits per byte.
pub open spec fn hex_of(bytes: Seq<u8>) -> Seq<char>
    decreases bytes.len(),
{
    if bytes.len() == 0 {
        Seq::empty()
    } else {
        hex_of(bytes.drop_last()) + hex_fixed(bytes.last() as nat, 2, false)
    }
}

pub open spec fn encoded_key(bytes: Seq<u8>) -> Seq<char> {
    "worktree-v1:"@ + hex_of(bytes)
}

pub fn encode_workspace_key(root: &[u8]) -> (r: String)
    ensures
        r@ == encoded_key(root@),
{
    let mut out: Vec<char> = Vec::new();
    let mut i: usize = 0;
    while i < root.len()
        invariant
            i <= root@.len(),
            out@ == hex_of(root@.take(i as int)),
        decreases root.len() - i,
    {
        proof {
            assert(root@.take(i + 1).drop_last() =~= root@.take(i as int));
        }
        let d = crate::num::hex_fixed_chars(root[i] as u64, 2, false);
        let ghost before = out@;
        let mut j: usize = 0;
        while j < d.len()
            invariant
                j <= d@.len(),
                out@ == before + d@.take(j as int),
            decreases d.len() - j,
        {
            out.push(d[j]);
            j += 1;
            assert(out@ =~= before + d@.take(j as int));
        }
        assert(d@.take(d@.len() as int) =~= d@);
        i += 1;
    }
    assert(root@.take(root@.len() as int) =~= root@);
    let hex = string_of(out.as_slice());
    concat2("worktree-v1:", hex.as_str())
}

proof fn lemma_hex_of_len(bytes: Seq<u8>)
    ensures
        hex_of(bytes).len() == 2 * bytes.len(),
        forall|i: int|
            0 <= i < hex_of(bytes).len() ==> is_ascii_hexdigit(#[trigger] hex_of(bytes)[i]) && !(
            'A' <= hex_of(bytes)[i] && hex_of(bytes)[i] <= 'F'),
    decreases bytes.len(),
{
    if bytes.len() > 0 {
        lemma_hex_of_len(bytes.drop_last());
        let b = bytes.last() as nat;
        let p = hex_of(bytes.drop_last());
        let t = hex_fixed(b, 2, false);
        assert(t == hex_fixed(b / 16, 1, false).push(hex_digit_lower(b % 16)));
        assert(hex_fixed(b / 16, 1, false) == hex_fixed(b / 256, 0, false).push(
            hex_digit_lower((b / 16) % 16),
        ));
        assert(t =~= seq![hex_digit_lower((b / 16) % 16), hex_digit_lower(b % 16)]);
        lemma_hex_digit((b / 16) % 16);
        lemma_hex_digit(b % 16);
        assert forall|i: int| 0 <= i < hex_of(bytes).len() implies is_ascii_hexdigit(
            #[trigger] hex_of(bytes)[i],
        ) && !('A' <= hex_of(bytes)[i] && hex_of(bytes)[i] <= 'F') by {
            if i < p.len() {
                assert(hex_of(bytes)[i] == p[i]);
            } else {
                assert(hex_of(bytes)[i] == t[i - p.len()]);
            }
        }
    }
}

proof fn lemma_hex_digit(k: nat)
    requires
        k < 16,
    ensures
        is_ascii_hexdigit(hex_digit_lower(k)),
        !('A' <= hex_digit_lower(k) && hex_digit_lower(k) <= 'F'),
        hex_value(hex_digit_lower(k)) == k,
        hex_digit_lower(k) != '+',
        (hex_digit_lower(k) as u32) < 128,
{
    let c = hex_digit_lower(k);
    if k < 10 {
        assert(c as u32 == 48 + k);
    } else {
        assert(c as u32 == 87 + k);
    }
}

proof fn lemma_pairs_of_hex(bytes: Seq<u8>)
    ensures
        pairs_upto(hex_of(bytes), bytes.len()) == Some(bytes),
    decreases bytes.len(),
{
    lemma_hex_of_len(bytes);
    if bytes.len() > 0 {
        let q = bytes.drop_last();
        let b = bytes.last() as nat;
        lemma_pairs_of_hex(q);
        lemma_hex_of_len(q);
        let h = hex_of(bytes);
        let p = hex_of(q);
        let t = hex_fixed(b, 2, false);
        assert(t == hex_fixed(b / 16, 1, false).push(hex_digit_lower(b % 16)));
        assert(hex_fixed(b / 16, 1, false) == hex_fixed(b / 256, 0, false).push(
            hex_digit_lower((b / 16) % 16),
        ));
        assert(t =~= seq![hex_digit_lower((b / 16) % 16), hex_digit_lower(b % 16)]);
        lemma_hex_digit((b / 16) % 16);
        lemma_hex_digit(b % 16);
        assert(h == p + t);
        lemma_pairs_prefix(h, p, q.len());
        assert(h[2 * q.len() as int] == hex_digit_lower((b / 16) % 16));
        assert(h[2 * q.len() as int + 1] == hex_digit_lower(b % 16));
        assert(((b / 16) % 16) * 16 + b % 16 == b) by (nonlinear_arith)
            requires
                b < 256,
        ;
        assert(bytes =~= q.push(bytes.last()));
    } else {
        assert(bytes =~= Seq::<u8>::empty());
    }
}

proof fn lemma_pairs_prefix(h: Seq<char>, p: Seq<char>, n: nat)
    requires
        p.len() == 2 * n,
        p.len() <= h.len(),
        forall|i: int| 0 <= i < p.len() ==> h[i] == p[i],
    ensures
        pairs_upto(h, n) == pairs_upto(p, n),
    decreases n,
{
    if n > 0 {
        lemma_pairs_prefix(h, p.take(2 * (n - 1)), (n - 1) as nat);
        lemma_pairs_prefix(p, p.take(2 * (n - 1)), (n - 1) as nat);
    }
}

/// Keys the backend issues decode back to the same worktree root.
pub proof fn lemma_workspace_key_roundtrip(root: Seq<u8>)
    requires
        0 < root.len() <= 2048,
    ensures
        decoded_key(encoded_key(root)) == Some(root),
{
    reveal_strlit("worktree-v1:");
    let k = encoded_key(root);
    let p = "worktree-v1:"@;
    lemma_hex_of_len(root);
    assert(p.is_prefix_of(k)) by {
        assert(k.take(p.len() as int) =~= p);
    }
    assert(k.skip(p.len() as int) =~= hex_of(root));
    let h = hex_of(root);
    assert(all_ascii(h)) by {
        assert forall|i: int| 0 <= i < h.len() implies (#[trigger] h[i] as u32) < 128 by {
            assert(is_ascii_hexdigit(h[i]));
        }
    }
    assert(h.len() % 2 == 0);
    assert(h.len() / 2 == root.len());
    lemma_pairs_of_hex(root);
}

// ---------------------------------------------------------------------------
// Saved tabs and recents
// ---------------------------------------------------------------------------

pub fn too_many_workspaces(n: usize) -> (r: Result<(), AppError>)
    ensures
        r is Ok <==> n <= 100,
        r matches Err(e) ==> is_error(
            e,
            ErrorCode::INVALID_ARGUMENT,
            "Too many workspaces to save"@,
            RecoveryAction::InspectState,
            false,
        ),
{
    if n > 100 {
        return Err(bad_request_str("Too many workspaces to save"));
    }
    Ok(())
}

/// A tab that could not be restored, with the error that skipped it.
pub fn skipped_workspace(entry: &OpenWorkspaceEntry, error: AppError) -> (r: SkippedWorkspace)
    ensures
        r.key == entry.key,
        r.display_path == entry.display_path,
        r.code == error.code,
        r.message == error.message,
{
    SkippedWorkspace {
        key: entry.key.clone(),
        display_path: entry.display_path.clone(),
        code: error.code,
        message: error.message,
    }
}

pub fn unknown_recent() -> (e: AppError)
    ensures
        is_error(
            e,
            ErrorCode::INVALID_ARGUMENT,
            "Unknown recent entry"@,
            RecoveryAction::InspectState,
            false,
        ),
{
    bad_request_str("Unknown recent entry")
}

} // verus!
