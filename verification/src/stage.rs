//! Exact-path index mutations: stage, unstage, stage or discard one hunk,
//! discard one file.
//!
//! Paths come from path ids resolved against the current status listing,
//! never from display strings, and reach Git as `:(literal)` raw-byte
//! arguments; nothing ever runs `add .`. Discards sit behind single-use
//! confirmations bound to the bytes the user saw.

use vstd::prelude::*;
use crate::text::{starts_with};
use crate::error::{bad_request_str, is_error, AppError, ErrorCode, RecoveryAction, RequestId};
use crate::merge::{lossy_string, take_chars, utf8_lossy};
use crate::text::{chars_of, concat3, str_eq, string_lit, string_of, utf8_len};
use vstd::string::StringSliceAdditionalSpecFns;

verus! {

#[derive(Debug)]
pub struct IndexMutationRequest {
    pub request_id: RequestId,
    pub repo_id: String,
    pub expected_version: u64,
    pub path_ids: Vec<String>,
}

#[derive(Debug)]
pub struct HunkMutationRequest {
    pub request_id: RequestId,
    pub repo_id: String,
    pub expected_version: u64,
    pub path_id: String,
    pub hunk_id: String,
}

#[derive(Debug)]
pub struct DiscardHunkRequest {
    pub request_id: RequestId,
    pub repo_id: String,
    pub expected_version: u64,
    pub path_id: String,
    pub hunk_id: String,
    pub confirmation_token: String,
}

#[derive(Debug)]
pub struct DiscardFileRequest {
    pub request_id: RequestId,
    pub repo_id: String,
    pub expected_version: u64,
    pub path_id: String,
    pub confirmation_token: String,
}

pub fn stage_trust_required() -> (e: AppError)
    ensures
        is_error(
            e,
            ErrorCode::TRUST_REQUIRED,
            "Trust this repository to stage or unstage files"@,
            RecoveryAction::InspectState,
            false,
        ),
{
    AppError::new(
        ErrorCode::TRUST_REQUIRED,
        string_lit("Trust this repository to stage or unstage files"),
        RecoveryAction::InspectState,
        false,
    )
}

pub fn stage_stale() -> (e: AppError)
    ensures
        is_error(
            e,
            ErrorCode::STALE_STATE,
            "The repository changed under you; refresh working changes and retry"@,
            RecoveryAction::Refresh,
            false,
        ),
{
    AppError::new(
        ErrorCode::STALE_STATE,
        string_lit("The repository changed under you; refresh working changes and retry"),
        RecoveryAction::Refresh,
        false,
    )
}

pub fn index_failed() -> (e: AppError)
    ensures
        is_error(
            e,
            ErrorCode::GIT_ERROR,
            "Git could not update the index for this selection"@,
            RecoveryAction::Refresh,
            true,
        ),
{
    AppError::new(
        ErrorCode::GIT_ERROR,
        string_lit("Git could not update the index for this selection"),
        RecoveryAction::Refresh,
        true,
    )
}

/// How reading or slicing a diff went wrong.
#[derive(Debug, Clone, PartialEq, Eq)]
pub enum DiffFailure {
    /// The request no longer matches the live diff; the message says why.
    Invalid(String),
    /// The diff is past the size the engine handles.
    TooLarge,
    /// Git's output went past the runner's limit.
    OutputLimit,
    /// Git outlived its deadline.
    TimedOut,
    /// Git could not be started.
    SpawnFailed,
    /// Git ran and failed.
    GitFailed,
}

/// The error of a hunk mutation whose diff could not be rebuilt.
pub fn hunk_error(error: DiffFailure) -> (e: AppError)
    ensures
        match error {
            DiffFailure::Invalid(m) => is_error(
                e,
                ErrorCode::STALE_STATE,
                m@,
                RecoveryAction::Refresh,
                false,
            ),
            DiffFailure::TooLarge | DiffFailure::OutputLimit => is_error(
                e,
                ErrorCode::OUTPUT_LIMIT,
                "This diff is too large for a partial mutation"@,
                RecoveryAction::InspectState,
                false,
            ),
            DiffFailure::TimedOut => is_error(
                e,
                ErrorCode::TIMEOUT,
                "Reading the current hunk timed out"@,
                RecoveryAction::RetryRead,
                true,
            ),
            DiffFailure::SpawnFailed | DiffFailure::GitFailed => is_error(
                e,
                ErrorCode::GIT_ERROR,
                "Git could not rebuild the current hunk"@,
                RecoveryAction::Refresh,
                true,
            ),
        },
{
    match error {
        DiffFailure::Invalid(message) => AppError::new(
            ErrorCode::STALE_STATE,
            message,
            RecoveryAction::Refresh,
            false,
        ),
        DiffFailure::TooLarge | DiffFailure::OutputLimit => AppError::new(
            ErrorCode::OUTPUT_LIMIT,
            string_lit("This diff is too large for a partial mutation"),
            RecoveryAction::InspectState,
            false,
        ),
        DiffFailure::TimedOut => AppError::new(
            ErrorCode::TIMEOUT,
            string_lit("Reading the current hunk timed out"),
            RecoveryAction::RetryRead,
            true,
        ),
        DiffFailure::SpawnFailed | DiffFailure::GitFailed => AppError::new(
            ErrorCode::GIT_ERROR,
            string_lit("Git could not rebuild the current hunk"),
            RecoveryAction::Refresh,
            true,
        ),
    }
}

// ---------------------------------------------------------------------------
// Argument vectors
// ---------------------------------------------------------------------------

/// `:(literal)` as bytes.
pub open spec fn literal_prefix() -> Seq<u8> {
    seq![58u8, 40u8, 108u8, 105u8, 116u8, 101u8, 114u8, 97u8, 108u8, 41u8]
}

pub open spec fn byte_views(v: Seq<Vec<u8>>) -> Seq<Seq<u8>> {
    v.map_values(|b: Vec<u8>| b@)
}

/// The base words, `--`, then one `:(literal)<path>` per path; the prefix
/// is ASCII so non-UTF-8 paths stay byte-exact.
pub open spec fn literal_argv(base: Seq<Seq<u8>>, paths: Seq<Seq<u8>>) -> Seq<Seq<u8>> {
    base + seq![seq![45u8, 45u8]] + paths.map_values(|p: Seq<u8>| literal_prefix() + p)
}

fn copy_bytes(b: &[u8]) -> (r: Vec<u8>)
    ensures
        r@ == b@,
{
    let mut r: Vec<u8> = Vec::new();
    let mut i: usize = 0;
    while i < b.len()
        invariant
            i <= b@.len(),
            r@ == b@.take(i as int),
        decreases b.len() - i,
    {
        r.push(b[i]);
        i += 1;
        assert(r@ =~= b@.take(i as int));
    }
    assert(b@.take(b@.len() as int) =~= b@);
    r
}

proof fn lemma_views_push(v: Seq<Vec<u8>>, x: Vec<u8>)
    ensures
        byte_views(v.push(x)) == byte_views(v).push(x@),
{
    assert(byte_views(v.push(x)) =~= byte_views(v).push(x@));
}

pub fn argv_with_paths(base: &[Vec<u8>], paths: &[Vec<u8>]) -> (r: Vec<Vec<u8>>)
    ensures
        byte_views(r@) == literal_argv(byte_views(base@), byte_views(paths@)),
{
    let mut argv: Vec<Vec<u8>> = Vec::new();
    let mut i: usize = 0;
    assert(byte_views(argv@) =~= byte_views(base@).take(0));
    while i < base.len()
        invariant
            i <= base@.len(),
            byte_views(argv@) == byte_views(base@).take(i as int),
        decreases base.len() - i,
    {
        let ghost before = argv@;
        let w = copy_bytes(base[i].as_slice());
        assert(w@ == byte_views(base@)[i as int]);
        argv.push(w);
        proof {
            lemma_views_push(before, w);
            assert(byte_views(base@).take(i + 1) =~= byte_views(base@).take(i as int).push(w@));
        }
        i += 1;
    }
    assert(byte_views(base@).take(base@.len() as int) =~= byte_views(base@));
    let ghost before = argv@;
    let dd: Vec<u8> = vec![45u8, 45u8];
    assert(dd@ =~= seq![45u8, 45u8]);
    argv.push(dd);
    proof {
        lemma_views_push(before, dd);
    }
    let ghost head = byte_views(argv@);
    assert(head =~= byte_views(base@) + seq![seq![45u8, 45u8]]);
    let mut j: usize = 0;
    assert(byte_views(paths@).take(0).map_values(|p: Seq<u8>| literal_prefix() + p) =~= Seq::<
        Seq<u8>,
    >::empty());
    assert(head + Seq::<Seq<u8>>::empty() =~= head);
    while j < paths.len()
        invariant
            j <= paths@.len(),
            head == byte_views(base@) + seq![seq![45u8, 45u8]],
            byte_views(argv@) == head + byte_views(paths@).take(j as int).map_values(
                |p: Seq<u8>| literal_prefix() + p,
            ),
        decreases paths.len() - j,
    {
        let ghost before = argv@;
        let lit = crate::merge::literal_pathspec(paths[j].as_slice());
        assert(lit@ == literal_prefix() + byte_views(paths@)[j as int]);
        argv.push(lit);
        proof {
            lemma_views_push(before, lit);
            assert(byte_views(paths@).take(j + 1).map_values(|p: Seq<u8>| literal_prefix() + p)
                =~= byte_views(paths@).take(j as int).map_values(
                |p: Seq<u8>| literal_prefix() + p,
            ).push(lit@));
        }
        j += 1;
    }
    assert(byte_views(paths@).take(paths@.len() as int) =~= byte_views(paths@));
    argv
}

/// One word of a Git command line, as bytes.
pub fn word(w: &str) -> (r: Vec<u8>)
    ensures
        r@ == w.spec_bytes(),
{
    copy_bytes(w.as_bytes())
}

// ---------------------------------------------------------------------------
// Stage and unstage
// ---------------------------------------------------------------------------

/// Requests carry at most 1000 path ids and at least one.
pub fn check_path_count(n: usize) -> (r: Result<(), AppError>)
    ensures
        r is Ok <==> 1 <= n <= 1000,
        n > 1000 ==> (r matches Err(e) && is_error(
            e,
            ErrorCode::INVALID_ARGUMENT,
            "Too many paths in one request"@,
            RecoveryAction::InspectState,
            false,
        )),
        n == 0 ==> (r matches Err(e) && is_error(
            e,
            ErrorCode::INVALID_ARGUMENT,
            "Select at least one file"@,
            RecoveryAction::InspectState,
            false,
        )),
{
    if n > 1000 {
        return Err(bad_request_str("Too many paths in one request"));
    }
    if n == 0 {
        return Err(bad_request_str("Select at least one file"));
    }
    Ok(())
}

/// `out` with `p` appended unless already there.
pub open spec fn add_unique(out: Seq<Seq<u8>>, p: Seq<u8>) -> Seq<Seq<u8>> {
    if out.contains(p) {
        out
    } else {
        out.push(p)
    }
}

/// The raw paths one mutation touches, in order, without repeats. A rename
/// is staged through its new side only; unstaging also moves the old side
/// (first) so no half rename lingers in the index.
pub open spec fn mutation_paths(resolved: Seq<(Seq<u8>, Option<Seq<u8>>)>, staged: bool) -> Seq<Seq<u8>>
    decreases resolved.len(),
{
    if resolved.len() == 0 {
        Seq::empty()
    } else {
        let prev = mutation_paths(resolved.drop_last(), staged);
        let (raw, orig) = resolved.last();
        let with_old = match orig {
            Some(old) => if !staged {
                add_unique(prev, old)
            } else {
                prev
            },
            None => prev,
        };
        add_unique(with_old, raw)
    }
}

pub open spec fn resolved_views(v: Seq<(Vec<u8>, Option<Vec<u8>>)>) -> Seq<(Seq<u8>, Option<Seq<u8>>)> {
    v.map_values(
        |x: (Vec<u8>, Option<Vec<u8>>)|
            (
                x.0@,
                match x.1 {
                    Some(o) => Some(o@),
                    None => None,
                },
            ),
    )
}

fn contains_path(v: &Vec<Vec<u8>>, p: &[u8]) -> (r: bool)
    ensures
        r == byte_views(v@).contains(p@),
{
    let mut i: usize = 0;
    while i < v.len()
        invariant
            i <= v@.len(),
            forall|k: int| 0 <= k < i ==> v@[k]@ != p@,
        decreases v.len() - i,
    {
        if bytes_eq(v[i].as_slice(), p) {
            assert(byte_views(v@)[i as int] == p@);
            return true;
        }
        i += 1;
    }
    assert forall|k: int| 0 <= k < byte_views(v@).len() implies byte_views(v@)[k] != p@ by {
        assert(byte_views(v@)[k] == v@[k]@);
    }
    false
}

pub fn bytes_eq(a: &[u8], b: &[u8]) -> (r: bool)
    ensures
        r == (a@ == b@),
{
    if a.len() != b.len() {
        return false;
    }
    let mut i: usize = 0;
    while i < a.len()
        invariant
            a@.len() == b@.len(),
            i <= a@.len(),
            forall|k: int| 0 <= k < i ==> a@[k] == b@[k],
        decreases a.len() - i,
    {
        if a[i] != b[i] {
            return false;
        }
        i += 1;
    }
    assert(a@ =~= b@);
    true
}

fn push_unique(out: &mut Vec<Vec<u8>>, p: &[u8])
    ensures
        byte_views(final(out)@) == add_unique(byte_views(old(out)@), p@),
{
    if !contains_path(out, p) {
        let ghost before = out@;
        out.push(copy_bytes(p));
        assert(byte_views(out@) =~= byte_views(before).push(p@));
    }
}

pub fn collect_mutation_paths(resolved: &[(Vec<u8>, Option<Vec<u8>>)], staged: bool) -> (r: Vec<
    Vec<u8>,
>)
    ensures
        byte_views(r@) == mutation_paths(resolved_views(resolved@), staged),
{
    let mut out: Vec<Vec<u8>> = Vec::new();
    let mut i: usize = 0;
    proof {
        assert(resolved_views(resolved@).take(0) =~= Seq::<(Seq<u8>, Option<Seq<u8>>)>::empty());
        assert(byte_views(out@) =~= Seq::<Seq<u8>>::empty());
    }
    while i < resolved.len()
        invariant
            i <= resolved@.len(),
            byte_views(out@) == mutation_paths(resolved_views(resolved@).take(i as int), staged),
        decreases resolved.len() - i,
    {
        proof {
            let rv = resolved_views(resolved@);
            assert(rv.take(i + 1).drop_last() =~= rv.take(i as int));
            assert(rv.take(i + 1).last() == rv[i as int]);
        }
        let (raw, orig) = (&resolved[i].0, &resolved[i].1);
        if !staged {
            match orig {
                Some(old) => push_unique(&mut out, old.as_slice()),
                None => {},
            }
        }
        push_unique(&mut out, raw.as_slice());
        i += 1;
    }
    assert(resolved_views(resolved@).take(resolved@.len() as int) =~= resolved_views(resolved@));
    out
}

/// The command that applies the mutation: `add` to stage; to unstage,
/// an index-only `restore --source=HEAD --staged`, or `rm --cached` on an
/// unborn HEAD; worktree bytes are never touched.
pub fn index_mutation_words(staged: bool, head_exists: bool) -> (r: Vec<Vec<u8>>)
    ensures
        staged ==> byte_views(r@) == seq!["add".spec_bytes()],
        !staged && head_exists ==> byte_views(r@) == seq![
            "restore".spec_bytes(),
            "--source=HEAD".spec_bytes(),
            "--staged".spec_bytes(),
        ],
        !staged && !head_exists ==> byte_views(r@) == seq!["rm".spec_bytes(), "--cached".spec_bytes()],
{
    let mut r: Vec<Vec<u8>> = Vec::new();
    if staged {
        r.push(word("add"));
        assert(byte_views(r@) =~= seq!["add".spec_bytes()]);
    } else if head_exists {
        r.push(word("restore"));
        r.push(word("--source=HEAD"));
        r.push(word("--staged"));
        assert(byte_views(r@) =~= seq![
            "restore".spec_bytes(),
            "--source=HEAD".spec_bytes(),
            "--staged".spec_bytes(),
        ]);
    } else {
        r.push(word("rm"));
        r.push(word("--cached"));
        assert(byte_views(r@) =~= seq!["rm".spec_bytes(), "--cached".spec_bytes()]);
    }
    r
}

/// `git apply` for one hunk: `--reverse` to discard from the worktree,
/// `--cached` to stage it.
pub fn hunk_apply_words(discard: bool) -> (r: Vec<Vec<u8>>)
    ensures
        discard ==> byte_views(r@) == seq![
            "apply".spec_bytes(),
            "--reverse".spec_bytes(),
            "--recount".spec_bytes(),
            "--whitespace=nowarn".spec_bytes(),
        ],
        !discard ==> byte_views(r@) == seq![
            "apply".spec_bytes(),
            "--cached".spec_bytes(),
            "--recount".spec_bytes(),
            "--whitespace=nowarn".spec_bytes(),
        ],
{
    let mut r: Vec<Vec<u8>> = Vec::new();
    r.push(word("apply"));
    if discard {
        r.push(word("--reverse"));
    } else {
        r.push(word("--cached"));
    }
    r.push(word("--recount"));
    r.push(word("--whitespace=nowarn"));
    if discard {
        assert(byte_views(r@) =~= seq![
            "apply".spec_bytes(),
            "--reverse".spec_bytes(),
            "--recount".spec_bytes(),
            "--whitespace=nowarn".spec_bytes(),
        ]);
    } else {
        assert(byte_views(r@) =~= seq![
            "apply".spec_bytes(),
            "--cached".spec_bytes(),
            "--recount".spec_bytes(),
            "--whitespace=nowarn".spec_bytes(),
        ]);
    }
    r
}

/// Discarding a file: `restore --worktree` for tracked files, `clean -f`
/// on the exact path for untracked ones (never `-d`, never recursive).
pub fn discard_file_words(in_index: bool) -> (r: Vec<Vec<u8>>)
    ensures
        in_index ==> byte_views(r@) == seq!["restore".spec_bytes(), "--worktree".spec_bytes()],
        !in_index ==> byte_views(r@) == seq!["clean".spec_bytes(), "-f".spec_bytes()],
{
    let mut r: Vec<Vec<u8>> = Vec::new();
    if in_index {
        r.push(word("restore"));
        r.push(word("--worktree"));
        assert(byte_views(r@) =~= seq!["restore".spec_bytes(), "--worktree".spec_bytes()]);
    } else {
        r.push(word("clean"));
        r.push(word("-f"));
        assert(byte_views(r@) =~= seq!["clean".spec_bytes(), "-f".spec_bytes()]);
    }
    r
}

// ---------------------------------------------------------------------------
// Hunks
// ---------------------------------------------------------------------------

/// A hunk id is at most 64 bytes and starts with `h1:`.
pub fn check_hunk_id(hunk_id: &str) -> (r: Result<(), AppError>)
    ensures
        r is Ok <==> utf8_len(hunk_id@) <= 64 && starts_with(hunk_id@, "h1:"@),
        r matches Err(e) ==> is_error(
            e,
            ErrorCode::INVALID_ARGUMENT,
            "Malformed hunk id"@,
            RecoveryAction::InspectState,
            false,
        ),
{
    let v = chars_of(hunk_id);
    let p = chars_of("h1:");
    let ok = !crate::text::str_exceeds(hunk_id, 64) && crate::text::has_prefix(&v, &p);
    assert(p@.is_prefix_of(v@) <==> starts_with(hunk_id@, "h1:"@));
    if !ok {
        return Err(bad_request_str("Malformed hunk id"));
    }
    Ok(())
}

/// A hunk patch failed to apply.
pub fn hunk_apply_failure(discard: bool) -> (e: AppError)
    ensures
        discard ==> is_error(
            e,
            ErrorCode::GIT_ERROR,
            "Git could not discard this hunk; refresh the diff and retry"@,
            RecoveryAction::Refresh,
            true,
        ),
        !discard ==> is_error(
            e,
            ErrorCode::GIT_ERROR,
            "Git could not stage this hunk; refresh the diff and retry"@,
            RecoveryAction::Refresh,
            true,
        ),
{
    AppError::new(
        ErrorCode::GIT_ERROR,
        if discard {
            string_lit("Git could not discard this hunk; refresh the diff and retry")
        } else {
            string_lit("Git could not stage this hunk; refresh the diff and retry")
        },
        RecoveryAction::Refresh,
        true,
    )
}

// ---------------------------------------------------------------------------
// Discarding a file
// ---------------------------------------------------------------------------

/// The file behind a discard changed or vanished since it was listed.
pub fn discard_target_gone() -> (e: AppError)
    ensures
        is_error(
            e,
            ErrorCode::STALE_STATE,
            "The file changed or no longer exists; refresh working changes"@,
            RecoveryAction::Refresh,
            false,
        ),
{
    AppError::new(
        ErrorCode::STALE_STATE,
        string_lit("The file changed or no longer exists; refresh working changes"),
        RecoveryAction::Refresh,
        false,
    )
}

/// An untracked discard target must be a regular file or a symlink.
pub fn check_discard_kind(is_file: bool, is_symlink: bool) -> (r: Result<(), AppError>)
    ensures
        r is Ok <==> is_file || is_symlink,
        r matches Err(e) ==> is_error(
            e,
            ErrorCode::INVALID_ARGUMENT,
            "Discard supports individual files and symbolic links only"@,
            RecoveryAction::InspectState,
            false,
        ),
{
    if !is_file && !is_symlink {
        return Err(bad_request_str("Discard supports individual files and symbolic links only"));
    }
    Ok(())
}

pub fn discard_file_failure() -> (e: AppError)
    ensures
        is_error(
            e,
            ErrorCode::GIT_ERROR,
            "Git could not discard this file; refresh working changes and retry"@,
            RecoveryAction::Refresh,
            true,
        ),
{
    AppError::new(
        ErrorCode::GIT_ERROR,
        string_lit("Git could not discard this file; refresh working changes and retry"),
        RecoveryAction::Refresh,
        true,
    )
}

// ---------------------------------------------------------------------------
// Discard and history confirmations
// ---------------------------------------------------------------------------

/// Which confirmation `prepare_discard_confirmation` builds.
#[derive(Debug, Clone, Copy, PartialEq, Eq, Structural)]
pub enum DiscardRoute {
    File,
    Hunk,
    History,
}

pub open spec fn history_action(a: Seq<char>) -> bool {
    a == "history_reset_hard"@ || a == "history_rebase"@ || a == "history_rebase_interactive"@ || a
        == "history_split"@
}

pub fn discard_route(action: &str, ntargets: usize) -> (r: Result<DiscardRoute, AppError>)
    ensures
        action@ == "discard_file"@ && ntargets == 1 ==> r == Ok::<DiscardRoute, AppError>(
            DiscardRoute::File,
        ),
        action@ == "discard_hunk"@ && ntargets == 2 ==> r == Ok::<DiscardRoute, AppError>(
            DiscardRoute::Hunk,
        ),
        history_action(action@) && ntargets == 1 ==> r == Ok::<DiscardRoute, AppError>(
            DiscardRoute::History,
        ),
        !(action@ == "discard_file"@ && ntargets == 1) && !(action@ == "discard_hunk"@ && ntargets
            == 2) && !(history_action(action@) && ntargets == 1) ==> (r matches Err(e) && is_error(
            e,
            ErrorCode::INVALID_ARGUMENT,
            "Invalid discard confirmation target"@,
            RecoveryAction::InspectState,
            false,
        )),
{
    proof {
        reveal_strlit("discard_file");
        reveal_strlit("discard_hunk");
        reveal_strlit("history_reset_hard");
        reveal_strlit("history_rebase");
        reveal_strlit("history_rebase_interactive");
        reveal_strlit("history_split");
        assert("discard_file"@[0] == 'd' && "history_rebase"@[0] == 'h');
        assert("discard_file"@[8] != "discard_hunk"@[8]);
    }
    if str_eq(action, "discard_file") && ntargets == 1 {
        return Ok(DiscardRoute::File);
    }
    if str_eq(action, "discard_hunk") && ntargets == 2 {
        return Ok(DiscardRoute::Hunk);
    }
    if (str_eq(action, "history_reset_hard") || str_eq(action, "history_rebase") || str_eq(
        action,
        "history_rebase_interactive",
    ) || str_eq(action, "history_split")) && ntargets == 1 {
        return Ok(DiscardRoute::History);
    }
    Err(bad_request_str("Invalid discard confirmation target"))
}

/// The text of a whole-file discard confirmation.
pub open spec fn discard_file_text(raw_path: Seq<u8>, in_index: bool) -> Seq<char> {
    if in_index {
        "Discard all unstaged changes in '"@ + utf8_lossy(raw_path)
            + "' and restore its index version. This cannot be undone by Octopus."@
    } else {
        "Delete untracked file '"@ + utf8_lossy(raw_path) + "'. This cannot be undone by Octopus."@
    }
}

pub fn discard_file_summary(raw_path: &[u8], in_index: bool) -> (r: String)
    ensures
        r@ == discard_file_text(raw_path@, in_index),
{
    let path = lossy_string(raw_path);
    if in_index {
        concat3(
            "Discard all unstaged changes in '",
            path.as_str(),
            "' and restore its index version. This cannot be undone by Octopus.",
        )
    } else {
        concat3("Delete untracked file '", path.as_str(), "'. This cannot be undone by Octopus.")
    }
}

/// The text of a hunk discard confirmation.
pub open spec fn discard_hunk_text(raw_path: Seq<u8>) -> Seq<char> {
    "Discard this hunk from '"@ + utf8_lossy(raw_path)
        + "'. The selected lines will be restored from the index and cannot be recovered by Octopus."@
}

pub fn discard_hunk_summary(raw_path: &[u8]) -> (r: String)
    ensures
        r@ == discard_hunk_text(raw_path@),
{
    let path = lossy_string(raw_path);
    concat3(
        "Discard this hunk from '",
        path.as_str(),
        "'. The selected lines will be restored from the index and cannot be recovered by Octopus.",
    )
}

/// The text of a history rewrite confirmation, naming the commit by its
/// first seven characters.
pub open spec fn history_text(action: Seq<char>, target: Seq<char>) -> Seq<char> {
    let short = take_chars(target, 7);
    if action == "history_reset_hard"@ {
        "Hard-reset the current branch to "@ + short
            + ". Index and worktree files change to match; uncommitted work is destroyed and cannot be recovered by Octopus."@
    } else if action == "history_rebase"@ {
        "Replay the current branch on top of "@ + short
            + ". Commits are rewritten with new IDs; resolve any conflicts in a terminal."@
    } else if action == "history_rebase_interactive"@ {
        "Rewrite history starting at "@ + short
            + " using your plan. Drops and squashes are permanent without a backup outside Octopus."@
    } else {
        "Split "@ + short
            + ": uncommit HEAD into the worktree so its changes can be re-committed in parts. The original commit ID disappears."@
    }
}

pub fn history_summary(action: &str, target: &str) -> (r: String)
    ensures
        r@ == history_text(action@, target@),
{
    let short = crate::merge::first_chars(target, 7);
    if str_eq(action, "history_reset_hard") {
        concat3(
            "Hard-reset the current branch to ",
            short.as_str(),
            ". Index and worktree files change to match; uncommitted work is destroyed and cannot be recovered by Octopus.",
        )
    } else if str_eq(action, "history_rebase") {
        concat3(
            "Replay the current branch on top of ",
            short.as_str(),
            ". Commits are rewritten with new IDs; resolve any conflicts in a terminal.",
        )
    } else if str_eq(action, "history_rebase_interactive") {
        concat3(
            "Rewrite history starting at ",
            short.as_str(),
            " using your plan. Drops and squashes are permanent without a backup outside Octopus.",
        )
    } else {
        concat3(
            "Split ",
            short.as_str(),
            ": uncommit HEAD into the worktree so its changes can be re-committed in parts. The original commit ID disappears.",
        )
    }
}

} // verus!
